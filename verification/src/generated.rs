//! The generated-metadata record written to the output directory after every
//! generate run, and the rules for naming it and comparing template sources.
use vstd::prelude::*;

use crate::constants::DEFAULT_GENERATED_FILE_NAME;
use crate::json::JsonValue;
use crate::store::{system_now, timestamp_text, unix_seconds, unix_subsec_nanos, TIMESTAMP_SHAPE_LIMIT};
use crate::text::{str_eq, zero_padded};

verus! {

/// Where a template came from, with what identifies its content.
#[derive(Debug)]
pub enum TemplateSourceInfo {
    /// A git repository, at a commit (and tag, if one points there).
    Git { url: String, commit: String, tag: Option<String> },
    /// A local directory, with a hash of its content.
    Filesystem { path: String, hash: String },
}

/// Two sources describe the same template content: same variant, and the
/// same commit (git) or the same hash (directory).
pub open spec fn same_content(stored: TemplateSourceInfo, fresh: TemplateSourceInfo) -> bool {
    match (stored, fresh) {
        (TemplateSourceInfo::Git { commit: a, .. }, TemplateSourceInfo::Git { commit: b, .. }) => a@
            == b@,
        (
            TemplateSourceInfo::Filesystem { hash: a, .. },
            TemplateSourceInfo::Filesystem { hash: b, .. },
        ) => a@ == b@,
        _ => false,
    }
}

/// Whether a fresh fetch of a template has the content it had when the
/// project was generated.
pub fn sources_are_identical(stored: &TemplateSourceInfo, fresh: &TemplateSourceInfo) -> (r: bool)
    ensures
        r == same_content(*stored, *fresh),
{
    match (stored, fresh) {
        (TemplateSourceInfo::Git { commit: a, .. }, TemplateSourceInfo::Git { commit: b, .. }) => {
            str_eq(a.as_str(), b.as_str())
        },
        (
            TemplateSourceInfo::Filesystem { hash: a, .. },
            TemplateSourceInfo::Filesystem { hash: b, .. },
        ) => str_eq(a.as_str(), b.as_str()),
        _ => false,
    }
}

/// The top-level structure serialised to `.baker-generated.yaml`.
#[derive(Debug)]
pub struct BakerGenerated {
    /// Schema version: always `"1"` for now.
    pub version: String,
    /// RFC3339 timestamp of when the generation ran.
    pub generated_at: String,
    /// Information about the template source.
    pub template: TemplateSourceInfo,
    /// The answers collected during generation.
    pub answers: JsonValue,
}

/// The sub-second part of an RFC 3339 time as chrono writes it: nothing
/// for a whole second, else a point and milli-, micro- or nanoseconds,
/// whichever is the shortest exact form.
pub open spec fn fraction_text(nanos: nat) -> Seq<char> {
    if nanos == 0 {
        Seq::empty()
    } else if nanos % 1_000_000 == 0 {
        seq!['.'] + zero_padded(nanos / 1_000_000, 3)
    } else if nanos % 1000 == 0 {
        seq!['.'] + zero_padded(nanos / 1000, 6)
    } else {
        seq!['.'] + zero_padded(nanos, 9)
    }
}

/// The RFC 3339 text of a UTC time `secs` seconds and `nanos` nanoseconds
/// after the Unix epoch: `YYYY-MM-DDTHH:MM:SS`, the fraction, `+00:00`.
pub open spec fn rfc3339_text(secs: nat, nanos: nat) -> Seq<char> {
    timestamp_text(secs).drop_last() + fraction_text(nanos) + "+00:00"@
}

/// The text an optional string holds.
pub open spec fn text_option(s: Option<String>) -> Option<Seq<char>> {
    match s {
        Some(t) => Some(t@),
        None => None,
    }
}

/// What chrono gives for the RFC 3339 text of the UTC time `secs` seconds
/// and `nanos` nanoseconds after the Unix epoch, `None` where it has no
/// such time.
pub uninterp spec fn chrono_rfc3339(secs: int, nanos: int) -> Option<Seq<char>>;

/// `chrono::DateTime::<Utc>::from_timestamp(secs, nanos)`, then
/// `to_rfc3339`. The result is chrono's, named `chrono_rfc3339`; from
/// 1970 up to the year 9999 and for less than a second of nanoseconds it is
/// `Some`, with the text `rfc3339_text`.
#[verifier::external_body]
fn chrono_rfc3339_of(secs: i64, nanos: u32) -> (r: Option<String>)
    ensures
        text_option(r) == chrono_rfc3339(secs as int, nanos as int),
        0 <= secs < TIMESTAMP_SHAPE_LIMIT && nanos < 1_000_000_000 ==> text_option(r) == Some(
            rfc3339_text(secs as nat, nanos as nat),
        ),
{
    match chrono::DateTime::<chrono::Utc>::from_timestamp(secs, nanos) {
        Some(t) => Some(t.to_rfc3339()),
        None => None,
    }
}

/// The text recorded for a generation at `secs` seconds and `nanos`
/// nanoseconds after the Unix epoch: chrono's RFC 3339 text, or empty text
/// where chrono has no such time.
pub open spec fn generation_time_text(secs: nat, nanos: nat) -> Seq<char> {
    if secs > i64::MAX {
        Seq::empty()
    } else {
        match chrono_rfc3339(secs as int, nanos as int) {
            Some(t) => t,
            None => Seq::empty(),
        }
    }
}

/// The RFC 3339 text of a UTC time given as seconds and nanoseconds after
/// the Unix epoch; empty where chrono has no such time.
pub fn rfc3339_timestamp(secs: u64, nanos: u32) -> (r: String)
    ensures
        r@ == generation_time_text(secs as nat, nanos as nat),
        secs < TIMESTAMP_SHAPE_LIMIT && nanos < 1_000_000_000 ==> r@ == rfc3339_text(
            secs as nat,
            nanos as nat,
        ),
{
    if secs > 9223372036854775807u64 {
        return String::new();
    }
    match chrono_rfc3339_of(secs as i64, nanos) {
        Some(t) => t,
        None => String::new(),
    }
}

impl BakerGenerated {
    /// Creates a new record from the given source info and answers,
    /// timestamped now (the epoch itself for a clock set before it).
    pub fn new(template: TemplateSourceInfo, answers: JsonValue) -> (r: Self)
        ensures
            r.version@ == "1"@,
            r.template == template,
            r.answers == answers,
            exists|secs: nat, nanos: nat|
                nanos < 1_000_000_000 && r.generated_at@ == generation_time_text(secs, nanos),
    {
        let now = system_now();
        let secs = unix_seconds(&now);
        let nanos = unix_subsec_nanos(&now);
        let generated_at = rfc3339_timestamp(secs, nanos);
        assert(generated_at@ == generation_time_text(secs as nat, nanos as nat));
        BakerGenerated { version: String::from_str("1"), generated_at, template, answers }
    }
}

/// The effective generated-file name in priority order: the command-line
/// override, then the configuration's value, then the built-in default.
pub open spec fn effective_file_name(
    cli_override: Option<Seq<char>>,
    config_value: Option<Seq<char>>,
) -> Seq<char> {
    match cli_override {
        Some(n) => n,
        None => match config_value {
            Some(n) => n,
            None => DEFAULT_GENERATED_FILE_NAME@,
        },
    }
}

/// Resolves the effective generated-file name from (in priority order):
/// 1. CLI flag (`cli_override`)
/// 2. Config field (`config_value`)
/// 3. Build-time default
pub fn resolve_file_name<'a>(cli_override: Option<&'a str>, config_value: Option<&'a str>) -> (r:
    &'a str)
    ensures
        r@ == effective_file_name(
            match cli_override {
                Some(s) => Some(s@),
                None => None,
            },
            match config_value {
                Some(s) => Some(s@),
                None => None,
            },
        ),
{
    match cli_override {
        Some(s) => s,
        None => match config_value {
            Some(s) => s,
            None => DEFAULT_GENERATED_FILE_NAME,
        },
    }
}

/// Comparing template sources is reflexive and symmetric, and a git source
/// never matches a directory source.
pub proof fn law_same_content_is_an_equivalence(a: TemplateSourceInfo, b: TemplateSourceInfo)
    ensures
        same_content(a, a),
        same_content(a, b) == same_content(b, a),
        (a is Git && b is Filesystem) ==> !same_content(a, b),
{
}

/// The command-line name of the generated file always wins; without it the
/// configuration's name wins over the default.
pub proof fn law_file_name_priority(cli: Seq<char>, config: Option<Seq<char>>)
    ensures
        effective_file_name(Some(cli), config) == cli,
        config matches Some(c) ==> effective_file_name(None, config) == c,
{
}

} // verus!
