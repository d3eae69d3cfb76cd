//! Template store for managing installed templates.
//!
//! Templates are kept in a store directory as a compressed archive
//! (`<name>.tar.gz`) next to a metadata file (`<name>.json`). This module
//! holds the store's naming rules, its metadata records and the timestamp
//! format written at install time; reading and writing the files is done by
//! the caller.
use vstd::prelude::*;

use crate::error::{Error, Result};
use crate::paths::{file_name, path_exists, path_file_name, path_join, path_join_exec};
use crate::text::{
    decimal,
    after_last, after_last_exec, chars_of, contains, contains_seq, ends_with, has_suffix, push_char,
    push_str, push_zero_padded, split_on, string_of, trim_end_all, trim_end_all_exec, zero_padded,
};

verus! {

/// Metadata about an installed template.
#[derive(Debug, Clone)]
pub struct TemplateMetadata {
    /// Name of the template (used as identifier).
    pub name: String,
    /// Original source (git URL or local path).
    pub source: String,
    /// Installation timestamp.
    pub installed_at: String,
    /// Optional description.
    pub description: Option<String>,
}

/// Manages the local template store.
pub struct TemplateStore {
    /// Root directory for the template store.
    store_dir: String,
}

/// The message of the error for a template that is not in the store.
pub open spec fn not_installed_message(name: Seq<char>) -> Seq<char> {
    "Template '"@ + name + "' is not installed"@
}

/// The message of the error for installing over an existing template.
pub open spec fn already_exists_message(name: Seq<char>) -> Seq<char> {
    "Template '"@ + name + "' already exists. Use --force to overwrite."@
}

impl TemplateStore {
    /// The store directory.
    pub closed spec fn dir(&self) -> Seq<char> {
        self.store_dir@
    }

    /// Creates a new TemplateStore using the default data directory.
    ///
    /// The store is located at `<data dir>/baker/templates`, where the data
    /// directory is the platform's per-user data directory.
    pub fn new() -> (r: Result<Self>)
        ensures
            r matches Ok(store) ==> exists|d: Seq<char>|
                store.dir() == path_join(path_join(d, "baker"@), "templates"@),
            r matches Err(e) ==> (e matches Error::Other(m) && m@
                == "Could not determine data directory"@),
    {
        Self::in_data_dir(data_dir())
    }

    /// The store inside the data directory `data_dir`, or the error reported
    /// when no data directory is known.
    pub fn in_data_dir(data_dir: Option<String>) -> (r: Result<Self>)
        ensures
            match data_dir {
                Some(d) => r matches Ok(store) && store.dir() == path_join(
                    path_join(d@, "baker"@),
                    "templates"@,
                ),
                None => r matches Err(Error::Other(m)) && m@ == "Could not determine data directory"@,
            },
    {
        match data_dir {
            Some(d) => {
                let baker = path_join_exec(d.as_str(), "baker");
                let store_dir = path_join_exec(baker.as_str(), "templates");
                Ok(TemplateStore { store_dir })
            },
            None => Err(Error::Other(String::from_str("Could not determine data directory"))),
        }
    }

    /// Creates a TemplateStore with a custom directory (useful for testing).
    pub fn with_dir(store_dir: String) -> (r: Self)
        ensures
            r.dir() == store_dir@,
    {
        Self { store_dir }
    }

    /// Returns the path to the store directory.
    pub fn store_dir(&self) -> (r: &str)
        ensures
            r@ == self.dir(),
    {
        self.store_dir.as_str()
    }

    /// Returns the path to a template's compressed archive.
    pub fn template_archive_path(&self, name: &str) -> (r: String)
        ensures
            r@ == path_join(self.dir(), name@ + ".tar.gz"@),
    {
        let mut file = String::from_str(name);
        push_str(&mut file, ".tar.gz");
        path_join_exec(self.store_dir.as_str(), file.as_str())
    }

    /// Returns the path to a template's metadata file.
    pub fn template_metadata_path(&self, name: &str) -> (r: String)
        ensures
            r@ == path_join(self.dir(), name@ + ".json"@),
    {
        let mut file = String::from_str(name);
        push_str(&mut file, ".json");
        path_join_exec(self.store_dir.as_str(), file.as_str())
    }

    /// Checks if a template is installed, that is, whether its archive exists
    /// in the store directory. The answer depends on the file system.
    pub fn is_installed(&self, name: &str) -> bool {
        let archive = self.template_archive_path(name);
        path_exists(archive.as_str())
    }

    /// The error for a template that is not installed.
    pub fn not_installed(name: &str) -> (r: Error)
        ensures
            r matches Error::Other(m) && m@ == not_installed_message(name@),
    {
        let mut m = String::from_str("Template '");
        push_str(&mut m, name);
        push_str(&mut m, "' is not installed");
        Error::Other(m)
    }

    /// The metadata of an installed template, from what reading its
    /// metadata file gave: `None` when the file does not exist, in which
    /// case the template is not installed.
    pub fn get_metadata(&self, name: &str, loaded: Option<Result<TemplateMetadata>>) -> (r: Result<
        TemplateMetadata,
    >)
        ensures
            loaded is None ==> (r matches Err(Error::Other(m)) && m@ == not_installed_message(name@)),
            loaded matches Some(x) ==> r == x,
    {
        match loaded {
            Some(x) => x,
            None => Err(Self::not_installed(name)),
        }
    }

    /// Whether removing `name` may go on: its archive must exist.
    pub fn check_remove(name: &str, archive_exists: bool) -> (r: Result<()>)
        ensures
            !archive_exists ==> (r matches Err(Error::Other(m)) && m@ == not_installed_message(name@)),
            archive_exists ==> r is Ok,
    {
        if !archive_exists {
            return Err(Self::not_installed(name));
        }
        Ok(())
    }

    /// The installed templates, from the metadata files that could be read:
    /// those that could not are skipped, the others are ordered by name.
    pub fn list_installed(loaded: Vec<Result<TemplateMetadata>>) -> (r: Vec<TemplateMetadata>)
        ensures
            sorted_by_name(r@),
            r@.to_multiset() == readable(loaded@).to_multiset(),
    {
        let ghost orig = loaded@;
        let mut rest = loaded;
        let mut found: Vec<TemplateMetadata> = Vec::new();
        let mut k: usize = 0;
        let total = rest.len();
        while rest.len() > 0
            invariant
                orig == loaded@,
                orig.len() == total,
                k + rest@.len() == orig.len(),
                rest@ == orig.subrange(k as int, orig.len() as int),
                found@ == readable(orig.take(k as int)),
            decreases rest@.len(),
        {
            let item = rest.remove(0);
            proof {
                assert(orig.take(k + 1).drop_last() =~= orig.take(k as int));
                assert(orig.take(k + 1).last() == item);
            }
            match item {
                Ok(m) => {
                    found.push(m);
                },
                Err(_) => {},
            }
            k += 1;
        }
        proof {
            assert(orig.take(orig.len() as int) =~= orig);
        }
        sort_by_name(found)
    }

    /// Whether installing `name` may go on, given whether its archive already
    /// exists: an existing template is only replaced when `force` is set.
    pub fn check_install(name: &str, archive_exists: bool, force: bool) -> (r: Result<()>)
        ensures
            archive_exists && !force ==> (r matches Err(Error::Other(m)) && m@
                == already_exists_message(name@)),
            !(archive_exists && !force) ==> r is Ok,
    {
        if archive_exists && !force {
            let mut m = String::from_str("Template '");
            push_str(&mut m, name);
            push_str(&mut m, "' already exists. Use --force to overwrite.");
            return Err(Error::Other(m));
        }
        Ok(())
    }
}

impl TemplateMetadata {
    /// The metadata recorded when installing `name` from `source`.
    pub fn new(name: &str, source: &str, installed_at: String, description: Option<String>) -> (r: Self)
        ensures
            r.name@ == name@,
            r.source@ == source@,
            r.installed_at == installed_at,
            r.description == description,
    {
        TemplateMetadata {
            name: String::from_str(name),
            source: String::from_str(source),
            installed_at,
            description,
        }
    }
}

/// The platform's per-user data directory (`dirs::data_dir`), as text. It
/// depends on the environment; nothing is stated of it.
#[verifier::external_body]
fn data_dir() -> Option<String> {
    dirs::data_dir().map(|p| p.to_string_lossy().into_owned())
}

// ---------------------------------------------------------------------------
// Listing order
// ---------------------------------------------------------------------------

/// Lexicographic order on characters (the order of `str` comparison).
pub open spec fn lex_le(a: Seq<char>, b: Seq<char>) -> bool
    decreases a.len(),
{
    if a.len() == 0 {
        true
    } else if b.len() == 0 {
        false
    } else if a[0] != b[0] {
        (a[0] as int) < (b[0] as int)
    } else {
        lex_le(a.drop_first(), b.drop_first())
    }
}

/// `lex_le` is total.
pub proof fn lemma_lex_le_total(a: Seq<char>, b: Seq<char>)
    ensures
        lex_le(a, b) || lex_le(b, a),
    decreases a.len(),
{
    if a.len() > 0 && b.len() > 0 && a[0] == b[0] {
        lemma_lex_le_total(a.drop_first(), b.drop_first());
    }
}

/// `lex_le` is transitive.
pub proof fn lemma_lex_le_trans(a: Seq<char>, b: Seq<char>, c: Seq<char>)
    requires
        lex_le(a, b),
        lex_le(b, c),
    ensures
        lex_le(a, c),
    decreases a.len(),
{
    if a.len() > 0 && b.len() > 0 && c.len() > 0 && a[0] == b[0] && b[0] == c[0] {
        lemma_lex_le_trans(a.drop_first(), b.drop_first(), c.drop_first());
    }
}

/// `a <= b` in lexicographic order.
pub fn lex_le_exec(a: &str, b: &str) -> (r: bool)
    ensures
        r == lex_le(a@, b@),
{
    let x = chars_of(a);
    let y = chars_of(b);
    let mut i: usize = 0;
    assert(a@.subrange(0, a@.len() as int) =~= a@);
    assert(b@.subrange(0, b@.len() as int) =~= b@);
    while i < x.len() && i < y.len() && x[i] == y[i]
        invariant
            i <= x@.len(),
            i <= y@.len(),
            x@ == a@,
            y@ == b@,
            lex_le(a@, b@) == lex_le(a@.subrange(i as int, a@.len() as int), b@.subrange(
                i as int,
                b@.len() as int,
            )),
        decreases x@.len() - i,
    {
        proof {
            let s = a@.subrange(i as int, a@.len() as int);
            let t = b@.subrange(i as int, b@.len() as int);
            assert(s.drop_first() =~= a@.subrange(i + 1, a@.len() as int));
            assert(t.drop_first() =~= b@.subrange(i + 1, b@.len() as int));
        }
        i += 1;
    }
    if i == x.len() {
        true
    } else if i == y.len() {
        false
    } else {
        x[i] < y[i]
    }
}

/// The names of a metadata list are in lexicographic order.
pub open spec fn sorted_by_name(v: Seq<TemplateMetadata>) -> bool {
    forall|i: int, j: int| 0 <= i < j < v.len() ==> lex_le(#[trigger] v[i].name@, #[trigger] v[j].name@)
}

/// The records that could be read, in order.
pub open spec fn readable(loaded: Seq<Result<TemplateMetadata>>) -> Seq<TemplateMetadata>
    decreases loaded.len(),
{
    if loaded.len() == 0 {
        Seq::empty()
    } else {
        match loaded.last() {
            Ok(m) => readable(loaded.drop_last()).push(m),
            Err(_) => readable(loaded.drop_last()),
        }
    }
}

/// A source names a repository when it mentions a known forge or ends
/// with `.git`.
pub open spec fn names_repository(source: Seq<char>) -> bool {
    contains_seq(source, "github.com"@) || contains_seq(source, "gitlab.com"@) || has_suffix(
        source,
        ".git"@,
    )
}

/// The name given to a template installed from `source`: a repository's
/// name (its last path segment, without `.git`), else the last component of
/// a local path, else `template`.
pub open spec fn derived_name(source: Seq<char>) -> Seq<char> {
    if names_repository(source) {
        after_last(trim_end_all(source, ".git"@), '/')
    } else {
        match path_file_name(source) {
            Some(n) => n,
            None => "template"@,
        }
    }
}

/// Derives a template name from a source URL or path.
pub fn derive_template_name(source: &str) -> (r: String)
    ensures
        r@ == derived_name(source@),
{
    let cs = chars_of(source);
    let github = chars_of("github.com");
    let gitlab = chars_of("gitlab.com");
    let git = chars_of(".git");
    proof {
        reveal_strlit("github.com");
        reveal_strlit("gitlab.com");
        reveal_strlit(".git");
        reveal_strlit("template");
    }
    if contains(&cs, &github) || contains(&cs, &gitlab) || ends_with(&cs, &git) {
        let trimmed = trim_end_all_exec(&cs, &git);
        let name = after_last_exec(&trimmed, '/');
        return string_of(&name);
    }
    match file_name(source) {
        Some(n) => n,
        None => String::from_str("template"),
    }
}

/// Orders installed-template records by name, as `TemplateStore::list`
/// reports them.
pub fn sort_by_name(items: Vec<TemplateMetadata>) -> (r: Vec<TemplateMetadata>)
    ensures
        sorted_by_name(r@),
        r@.to_multiset() == items@.to_multiset(),
{
    broadcast use vstd::seq_lib::group_to_multiset_ensures, vstd::multiset::group_multiset_axioms;
    let mut items = items;
    let ghost all_items = items@;
    let mut out: Vec<TemplateMetadata> = Vec::new();
    while items.len() > 0
        invariant
            sorted_by_name(out@),
            out@.to_multiset().add(items@.to_multiset()) == all_items.to_multiset(),
        decreases items@.len(),
    {
        let ghost before_items = items@;
        let x = items.remove(0);
        proof {
            assert(before_items.remove(0) =~= items@);
            assert(x == before_items[0]);
            assert(before_items.contains(x));
            before_items.to_multiset_ensures();
            assert(before_items.to_multiset().count(x) > 0);
            assert(items@.to_multiset() == before_items.to_multiset().remove(x));
            assert(before_items.to_multiset() =~= items@.to_multiset().insert(x));
        }
        let mut pos: usize = 0;
        while pos < out.len() && lex_le_exec(out[pos].name.as_str(), x.name.as_str())
            invariant
                pos <= out@.len(),
                forall|k: int| 0 <= k < pos ==> lex_le(#[trigger] out@[k].name@, x.name@),
            decreases out@.len() - pos,
        {
            pos += 1;
        }
        let ghost before = out@;
        out.insert(pos, x);
        proof {
            assert forall|i: int, j: int| 0 <= i < j < out@.len() implies lex_le(
                #[trigger] out@[i].name@,
                #[trigger] out@[j].name@,
            ) by {
                if j < pos {
                    assert(out@[i] == before[i] && out@[j] == before[j]);
                } else if j == pos {
                    assert(out@[i] == before[i]);
                } else if i == pos {
                    assert(out@[j] == before[j - 1]);
                    lemma_lex_le_total(x.name@, before[pos as int].name@);
                    if j - 1 > pos {
                        lemma_lex_le_trans(x.name@, before[pos as int].name@, before[j - 1].name@);
                    }
                } else if i < pos {
                    assert(out@[i] == before[i] && out@[j] == before[j - 1]);
                } else {
                    assert(out@[i] == before[i - 1] && out@[j] == before[j - 1]);
                }
            }
            before.insert_ensures(pos as int, x);
            assert(out@.remove(pos as int) =~= before);
            assert(out@[pos as int] == x);
            out@.to_multiset_ensures();
            assert(out@.to_multiset().remove(x) == before.to_multiset());
            assert(out@.to_multiset().count(x) > 0);
            assert(out@.to_multiset() =~= before.to_multiset().insert(x));
        }
    }
    proof {
        assert(items@.to_multiset() =~= vstd::multiset::Multiset::empty());
    }
    out
}

// ---------------------------------------------------------------------------
// Calendar
// ---------------------------------------------------------------------------

/// Gregorian leap year rule.
pub open spec fn is_leap(year: int) -> bool {
    (year % 4 == 0 && year % 100 != 0) || year % 400 == 0
}

/// Number of days in `year`.
pub open spec fn year_days(year: int) -> int {
    if is_leap(year) { 366 } else { 365 }
}

/// Number of days from 1970-01-01 to the first day of `year`.
pub open spec fn days_before_year(year: int) -> int
    decreases year - 1970,
{
    if year <= 1970 {
        0
    } else {
        days_before_year(year - 1) + year_days(year - 1)
    }
}

/// Number of days of February in `year`.
pub open spec fn february_days(year: int) -> int {
    if is_leap(year) { 29 } else { 28 }
}

/// Number of days in month `month` (1-based) of `year`.
pub open spec fn month_days(year: int, month: int) -> int {
    if month == 2 {
        february_days(year)
    } else if month == 4 || month == 6 || month == 9 || month == 11 {
        30
    } else {
        31
    }
}

/// Number of days of `year` before the first day of month `month` (1-based).
pub open spec fn days_before_month(year: int, month: int) -> int {
    let f = february_days(year);
    if month <= 1 { 0 }
    else if month == 2 { 31 }
    else if month == 3 { 31 + f }
    else if month == 4 { 62 + f }
    else if month == 5 { 92 + f }
    else if month == 6 { 123 + f }
    else if month == 7 { 153 + f }
    else if month == 8 { 184 + f }
    else if month == 9 { 215 + f }
    else if month == 10 { 245 + f }
    else if month == 11 { 276 + f }
    else { 306 + f }
}

/// `(year, month, day)` is a valid date lying `days` days after 1970-01-01.
pub open spec fn date_is(days: int, year: int, month: int, day: int) -> bool {
    &&& year >= 1970
    &&& 1 <= month <= 12
    &&& 1 <= day <= month_days(year, month)
    &&& days_before_year(year) + days_before_month(year, month) + day - 1 == days
}

/// The calendar date lying `days` days after 1970-01-01.
pub open spec fn civil_date_of(days: int) -> (int, int, int) {
    choose|t: (int, int, int)| date_is(days, t.0, t.1, t.2)
}

/// The UTC timestamp `YYYY-MM-DDTHH:MM:SSZ` of `secs` seconds after the Unix epoch.
pub open spec fn timestamp_text(secs: nat) -> Seq<char> {
    let days = secs / 86400;
    let t = secs % 86400;
    let date = civil_date_of(days as int);
    zero_padded(date.0 as nat, 4) + seq!['-'] + zero_padded(date.1 as nat, 2) + seq!['-']
        + zero_padded(date.2 as nat, 2) + seq!['T'] + zero_padded(t / 3600, 2) + seq![':']
        + zero_padded((t % 3600) / 60, 2) + seq![':'] + zero_padded(t % 60, 2) + seq!['Z']
}

/// Each year holds at least 365 days.
proof fn lemma_days_before_year_lower(year: int)
    requires
        year >= 1970,
    ensures
        days_before_year(year) >= 365 * (year - 1970),
    decreases year - 1970,
{
    if year > 1970 {
        lemma_days_before_year_lower(year - 1);
    }
}

/// `days_before_year` grows with the year.
proof fn lemma_days_before_year_mono(a: int, b: int)
    requires
        1970 <= a <= b,
    ensures
        days_before_year(a) + (b - a) * 365 <= days_before_year(b),
        a < b ==> days_before_year(a) + year_days(a) <= days_before_year(b),
    decreases b - a,
{
    if a < b {
        lemma_days_before_year_mono(a, b - 1);
    }
}

/// Leap years from year 1 through year `n`.
spec fn leaps_through(n: int) -> int {
    n / 4 - n / 100 + n / 400
}

/// Counting one more year adds one leap year exactly when it is one.
proof fn lemma_leap_step(n: int)
    requires
        n >= 1,
    ensures
        leaps_through(n) - leaps_through(n - 1) == if is_leap(n) { 1int } else { 0int },
{
    assert(n / 4 - (n - 1) / 4 == if n % 4 == 0 { 1int } else { 0int }) by (nonlinear_arith)
        requires n >= 1;
    assert(n / 100 - (n - 1) / 100 == if n % 100 == 0 { 1int } else { 0int }) by (nonlinear_arith)
        requires n >= 1;
    assert(n / 400 - (n - 1) / 400 == if n % 400 == 0 { 1int } else { 0int }) by (nonlinear_arith)
        requires n >= 1;
    assert(n % 400 == 0 ==> n % 100 == 0 && n % 4 == 0) by (nonlinear_arith);
    assert(n % 100 == 0 ==> n % 4 == 0) by (nonlinear_arith);
}

/// The days before a year in closed form.
proof fn lemma_days_before_year_closed(year: int)
    requires
        year >= 1970,
    ensures
        days_before_year(year) == 365 * (year - 1970) + leaps_through(year - 1) - leaps_through(1969),
    decreases year - 1970,
{
    if year > 1970 {
        lemma_days_before_year_closed(year - 1);
        lemma_leap_step(year - 1);
    }
}

/// A date determines its day count and back: `date_is` names at most one date.
pub proof fn lemma_date_unique(days: int, y1: int, m1: int, d1: int, y2: int, m2: int, d2: int)
    requires
        date_is(days, y1, m1, d1),
        date_is(days, y2, m2, d2),
    ensures
        y1 == y2 && m1 == m2 && d1 == d2,
{
    // Within a year, the days before the chosen day stay below the year's length.
    assert(days_before_month(y1, m1) + d1 - 1 < year_days(y1));
    assert(days_before_month(y2, m2) + d2 - 1 < year_days(y2));
    if y1 < y2 {
        lemma_days_before_year_mono(y1, y2);
    } else if y2 < y1 {
        lemma_days_before_year_mono(y2, y1);
    }
    assert(y1 == y2);
    if m1 < m2 {
        assert(days_before_month(y1, m1) + month_days(y1, m1) <= days_before_month(y1, m2));
    } else if m2 < m1 {
        assert(days_before_month(y1, m2) + month_days(y1, m2) <= days_before_month(y1, m1));
    }
}

/// A date lying `days` days after 1970-01-01, found day by day.
proof fn date_witness(days: nat) -> (t: (int, int, int))
    ensures
        date_is(days as int, t.0, t.1, t.2),
    decreases days,
{
    if days == 0 {
        (1970, 1, 1)
    } else {
        let (y, m, d) = date_witness((days - 1) as nat);
        if d < month_days(y, m) {
            (y, m, d + 1)
        } else if m < 12 {
            (y, m + 1, 1)
        } else {
            assert(days_before_year(y + 1) == days_before_year(y) + year_days(y));
            (y + 1, 1, 1)
        }
    }
}

/// Every timestamp names the calendar date of its day: the day count
/// `secs / 86400` after 1970-01-01 has a date (so `timestamp_text` shows a
/// real Gregorian date, the only one with that day count).
pub proof fn law_timestamp_shows_the_calendar_date(secs: nat)
    ensures
        ({
            let t = civil_date_of((secs / 86400) as int);
            date_is((secs / 86400) as int, t.0, t.1, t.2)
        }),
{
    let w = date_witness(secs / 86400);
    assert(date_is((secs / 86400) as int, w.0, w.1, w.2));
}

/// Gregorian leap year rule.
pub fn is_leap_year(year: i32) -> (r: bool)
    ensures
        r == is_leap(year as int),
{
    (year % 4 == 0 && year % 100 != 0) || (year % 400 == 0)
}

fn is_leap_year_u64(year: u64) -> (r: bool)
    ensures
        r == is_leap(year as int),
{
    (year % 4 == 0 && year % 100 != 0) || (year % 400 == 0)
}

/// The calendar date `(year, month, day)` lying `days` days after 1970-01-01.
pub fn civil_date(days: u64) -> (r: (u64, u64, u64))
    ensures
        date_is(days as int, r.0 as int, r.1 as int, r.2 as int),
        (r.0 as int, r.1 as int, r.2 as int) == civil_date_of(days as int),
{
    let mut remaining: u64 = days;
    let mut year: u64 = 1970;
    loop
        invariant
            1970 <= year,
            remaining <= days,
            days_before_year(year as int) + remaining == days,
        ensures
            1970 <= year,
            days_before_year(year as int) + remaining == days,
            remaining < year_days(year as int),
        decreases remaining,
    {
        let days_in_year: u64 = if is_leap_year_u64(year) { 366 } else { 365 };
        if remaining < days_in_year {
            break;
        }
        proof {
            lemma_days_before_year_lower(year as int);
            assert(365 * (year - 1970) <= days);
        }
        remaining -= days_in_year;
        year += 1;
    }
    let leap = is_leap_year_u64(year);
    let days_in_months: [u64; 12] = if leap {
        [31, 29, 31, 30, 31, 30, 31, 31, 30, 31, 30, 31]
    } else {
        [31, 28, 31, 30, 31, 30, 31, 31, 30, 31, 30, 31]
    };
    proof {
        assert forall|k: int| 0 <= k < 12 implies days_in_months@[k] == month_days(
            year as int,
            k + 1,
        ) by {
            if k == 0 {} else if k == 1 {} else if k == 2 {} else if k == 3 {} else if k == 4 {}
            else if k == 5 {} else if k == 6 {} else if k == 7 {} else if k == 8 {}
            else if k == 9 {} else if k == 10 {} else {}
        }
    }
    let ghost year_rest = remaining;
    let mut month: u64 = 1;
    let mut i: usize = 0;
    while i < 12
        invariant
            i <= 11,
            month == i + 1,
            days_before_month(year as int, month as int) + remaining == year_rest,
            year_rest < year_days(year as int),
            remaining <= year_rest,
            leap == is_leap(year as int),
            forall|k: int| 0 <= k < 12 ==> days_in_months@[k] == month_days(year as int, k + 1),
        ensures
            1 <= month <= 12,
            days_before_month(year as int, month as int) + remaining == year_rest,
            remaining < month_days(year as int, month as int),
        decreases 12 - i,
    {
        let dm = days_in_months[i];
        if remaining < dm {
            break;
        }
        proof {
            assert(dm == month_days(year as int, month as int));
            assert(month < 12);
            assert(days_before_month(year as int, month + 1) == days_before_month(
                year as int,
                month as int,
            ) + month_days(year as int, month as int));
        }
        remaining -= dm;
        month += 1;
        i += 1;
    }
    let day = remaining + 1;
    proof {
        let w = (year as int, month as int, day as int);
        assert(date_is(days as int, w.0, w.1, w.2));
        let t = civil_date_of(days as int);
        lemma_date_unique(days as int, year as int, month as int, day as int, t.0, t.1, t.2);
    }
    (year, month, day)
}

/// Formats `secs` seconds after the Unix epoch as `YYYY-MM-DDTHH:MM:SSZ` (UTC).
pub fn format_timestamp(secs: u64) -> (r: String)
    ensures
        r@ == timestamp_text(secs as nat),
        secs < TIMESTAMP_SHAPE_LIMIT ==> timestamp_shaped(r@),
{
    let days = secs / 86400;
    let time_secs = secs % 86400;
    let hours = time_secs / 3600;
    let minutes = (time_secs % 3600) / 60;
    let seconds = time_secs % 60;
    let (year, month, day) = civil_date(days);
    let mut out = String::new();
    push_zero_padded(&mut out, year, 4);
    push_char(&mut out, '-');
    push_zero_padded(&mut out, month, 2);
    push_char(&mut out, '-');
    push_zero_padded(&mut out, day, 2);
    push_char(&mut out, 'T');
    push_zero_padded(&mut out, hours, 2);
    push_char(&mut out, ':');
    push_zero_padded(&mut out, minutes, 2);
    push_char(&mut out, ':');
    push_zero_padded(&mut out, seconds, 2);
    push_char(&mut out, 'Z');
    proof {
        if secs < TIMESTAMP_SHAPE_LIMIT {
            reveal_with_fuel(ten_pow, 5);
            assert(year < 10000) by {
                if year >= 10000 {
                    lemma_days_before_year_closed(10000);
                    lemma_days_before_year_mono(10000, year as int);
                }
            }
            assert(month_days(year as int, month as int) <= 31);
            lemma_zero_padded_len(year as nat, 4);
            lemma_zero_padded_len(month as nat, 2);
            lemma_zero_padded_len(day as nat, 2);
            lemma_zero_padded_len(hours as nat, 2);
            lemma_zero_padded_len(minutes as nat, 2);
            lemma_zero_padded_len(seconds as nat, 2);
            let t = out@;
            assert(t.len() == 20);
            assert(t[4] == '-');
            assert(t[7] == '-');
            assert(t[10] == 'T');
            assert(t[13] == ':');
            assert(t[16] == ':');
            assert(t[19] == 'Z');
        }
    }
    out
}

/// Seconds from the Unix epoch to the first second of the year 10000:
/// every earlier timestamp has a four-digit year.
pub const TIMESTAMP_SHAPE_LIMIT: u64 = 253402300800;

/// The shape `YYYY-MM-DDTHH:MM:SSZ`: twenty characters with the separators
/// in place.
pub open spec fn timestamp_shaped(t: Seq<char>) -> bool {
    &&& t.len() == 20
    &&& t[4] == '-'
    &&& t[7] == '-'
    &&& t[10] == 'T'
    &&& t[13] == ':'
    &&& t[16] == ':'
    &&& t[19] == 'Z'
}

/// `10` to the power `k`.
pub open spec fn ten_pow(k: nat) -> nat
    decreases k,
{
    if k == 0 {
        1
    } else {
        10 * ten_pow((k - 1) as nat)
    }
}

/// A number below `10^k` has at most `k` decimal digits.
proof fn lemma_decimal_len(n: nat, k: nat)
    requires
        k >= 1,
        n < ten_pow(k),
    ensures
        decimal(n).len() <= k,
    decreases n,
{
    if n >= 10 {
        assert(k >= 2) by {
            if k == 1 {
                assert(ten_pow(1) == 10 * ten_pow(0));
            }
        }
        assert(n / 10 < ten_pow((k - 1) as nat)) by {
            assert(ten_pow(k) == 10 * ten_pow((k - 1) as nat));
        }
        lemma_decimal_len(n / 10, (k - 1) as nat);
    }
}

/// Padding a number with fewer than `w` digits gives exactly `w` characters.
proof fn lemma_zero_padded_len(n: nat, w: nat)
    requires
        w == 2 || w == 4,
        n < ten_pow(w),
    ensures
        zero_padded(n, w).len() == w,
{
    reveal_with_fuel(ten_pow, 5);
    lemma_decimal_len(n, w);
}

/// The current time (`std::time::SystemTime::now`).
#[verifier::external_body]
pub(crate) fn system_now() -> std::time::SystemTime {
    std::time::SystemTime::now()
}

/// Whole seconds from the Unix epoch to `t` (`SystemTime::duration_since`),
/// zero for a time before the epoch.
#[verifier::external_body]
pub(crate) fn unix_seconds(t: &std::time::SystemTime) -> u64 {
    t.duration_since(std::time::UNIX_EPOCH).unwrap_or_default().as_secs()
}

/// The nanoseconds past the whole second of `t` since the Unix epoch
/// (`Duration::subsec_nanos` of `SystemTime::duration_since`), zero for a
/// time before the epoch: always less than a second.
#[verifier::external_body]
pub(crate) fn unix_subsec_nanos(t: &std::time::SystemTime) -> (r: u32)
    ensures
        r < 1_000_000_000,
{
    t.duration_since(std::time::UNIX_EPOCH).unwrap_or_default().subsec_nanos()
}

#[verifier::external_type_specification]
#[verifier::external_body]
pub struct ExSystemTime(std::time::SystemTime);

/// Returns a simple ISO 8601 timestamp of the current UTC time.
pub fn chrono_lite_timestamp() -> (r: String)
    ensures
        exists|secs: nat|
            r@ == timestamp_text(secs) && (secs < TIMESTAMP_SHAPE_LIMIT ==> timestamp_shaped(r@)),
{
    let now = system_now();
    let secs = unix_seconds(&now);
    let r = format_timestamp(secs);
    assert(r@ == timestamp_text(secs as nat) && (secs < TIMESTAMP_SHAPE_LIMIT ==> timestamp_shaped(r@)));
    r
}

/// A template's archive and its metadata file are different files.
pub proof fn law_archive_and_metadata_paths_differ(dir: Seq<char>, name: Seq<char>)
    ensures
        path_join(dir, name + ".tar.gz"@) != path_join(dir, name + ".json"@),
{
    reveal_strlit(".tar.gz");
    reveal_strlit(".json");
    let a = path_join(dir, name + ".tar.gz"@);
    let b = path_join(dir, name + ".json"@);
    assert(a.last() == 'z');
    assert(b.last() == 'n');
}

/// A path inside a template directory, relative to it, that goes into the
/// template's archive: anything but the directory itself and what lies in
/// a `.git` directory.
pub open spec fn archived(relative: Seq<char>) -> bool {
    relative.len() > 0 && !split_on(relative, '/').contains(".git"@)
}

/// Whether a path relative to the template directory (components joined
/// by `/`) goes into the template's archive.
pub fn keeps_in_archive(relative: &str) -> (r: bool)
    ensures
        r == archived(relative@),
{
    let cs = chars_of(relative);
    if cs.len() == 0 {
        return false;
    }
    let parts = crate::web::render::split_exec(&cs, '/');
    let ghost pv = crate::text::lines_view(parts@);
    let git = chars_of(".git");
    let mut i: usize = 0;
    while i < parts.len()
        invariant
            i <= parts@.len(),
            pv == crate::text::lines_view(parts@),
            pv == split_on(relative@, '/'),
            git@ == ".git"@,
            forall|k: int| 0 <= k < i ==> pv[k] != ".git"@,
        decreases parts@.len() - i,
    {
        if crate::text::chars_eq(&parts[i], &git) {
            proof {
                assert(pv[i as int] == ".git"@);
            }
            return false;
        }
        i += 1;
    }
    proof {
        assert(!pv.contains(".git"@)) by {
            if pv.contains(".git"@) {
                let k = choose|k: int| 0 <= k < pv.len() && pv[k] == ".git"@;
                assert(pv[k] != ".git"@);
            }
        }
    }
    true
}

/// The lines describing one installed template in the listing.
pub open spec fn entry_lines(t: TemplateMetadata) -> Seq<Seq<char>> {
    seq!["  "@ + t.name@ + " "@] + match t.description {
        Some(d) => seq!["    Description: "@ + d@],
        None => Seq::empty(),
    } + seq!["    Source: "@ + t.source@, "    Installed: "@ + t.installed_at@, ""@]
}

/// The lines describing installed templates, one block each, in order.
pub open spec fn entries_lines(ts: Seq<TemplateMetadata>) -> Seq<Seq<char>>
    decreases ts.len(),
{
    if ts.len() == 0 {
        Seq::empty()
    } else {
        entries_lines(ts.drop_last()) + entry_lines(ts.last())
    }
}

/// The listing of the installed templates, line by line: a hint on how to
/// install one when there are none.
pub open spec fn listing(ts: Seq<TemplateMetadata>) -> Seq<Seq<char>> {
    if ts.len() == 0 {
        seq![
            "No templates installed."@,
            ""@,
            "Install a template with:"@,
            "  baker install <git-url-or-path> --name <name>"@,
        ]
    } else {
        seq!["Installed templates:"@, ""@] + entries_lines(ts)
    }
}

/// A string made of two texts.
fn joined(a: &str, b: &str) -> (r: String)
    ensures
        r@ == a@ + b@,
{
    let mut s = String::from_str(a);
    push_str(&mut s, b);
    s
}

/// Appends a line.
fn push_line(out: &mut Vec<String>, line: String)
    ensures
        crate::text::string_views(final(out)@) == crate::text::string_views(old(out)@).push(line@),
{
    proof {
        crate::text::lemma_string_views_push(out@, line);
    }
    out.push(line);
}

/// The lines of the listing of installed templates.
pub fn listing_lines(templates: &Vec<TemplateMetadata>) -> (r: Vec<String>)
    ensures
        crate::text::string_views(r@) == listing(templates@),
{
    proof {
        reveal_strlit("No templates installed.");
        reveal_strlit("");
        reveal_strlit("Install a template with:");
        reveal_strlit("  baker install <git-url-or-path> --name <name>");
        reveal_strlit("Installed templates:");
    }
    let mut out: Vec<String> = Vec::new();
    if templates.len() == 0 {
        push_line(&mut out, String::from_str("No templates installed."));
        push_line(&mut out, String::from_str(""));
        push_line(&mut out, String::from_str("Install a template with:"));
        push_line(&mut out, String::from_str("  baker install <git-url-or-path> --name <name>"));
        proof {
            assert(crate::text::string_views(out@) =~= listing(templates@));
        }
        return out;
    }
    push_line(&mut out, String::from_str("Installed templates:"));
    push_line(&mut out, String::from_str(""));
    let ghost head: Seq<Seq<char>> = seq!["Installed templates:"@, ""@];
    proof {
        assert(crate::text::string_views(out@) =~= head);
        assert(templates@.take(0) =~= Seq::<TemplateMetadata>::empty());
        assert(head + entries_lines(templates@.take(0)) =~= head);
    }
    let mut i: usize = 0;
    while i < templates.len()
        invariant
            i <= templates@.len(),
            head == seq!["Installed templates:"@, ""@],
            crate::text::string_views(out@) == head + entries_lines(templates@.take(i as int)),
        decreases templates@.len() - i,
    {
        let t = &templates[i];
        let ghost before = crate::text::string_views(out@);
        push_line(&mut out, joined(joined("  ", t.name.as_str()).as_str(), " "));
        match &t.description {
            Some(d) => push_line(&mut out, joined("    Description: ", d.as_str())),
            None => {},
        }
        push_line(&mut out, joined("    Source: ", t.source.as_str()));
        push_line(&mut out, joined("    Installed: ", t.installed_at.as_str()));
        push_line(&mut out, String::from_str(""));
        proof {
            assert(templates@.take(i + 1).drop_last() =~= templates@.take(i as int));
            assert(templates@.take(i + 1).last() == *t);
            assert(crate::text::string_views(out@) =~= before + entry_lines(*t));
            assert(head + entries_lines(templates@.take(i + 1)) =~= head + entries_lines(
                templates@.take(i as int),
            ) + entry_lines(*t));
        }
        i += 1;
    }
    proof {
        assert(templates@.take(templates@.len() as int) =~= templates@);
    }
    out
}

/// The lines describing one installed template in detail.
pub open spec fn info_lines_of(t: TemplateMetadata) -> Seq<Seq<char>> {
    seq!["Template: "@ + t.name@, "Source: "@ + t.source@, "Installed: "@ + t.installed_at@] + match t.description {
        Some(d) => seq!["Description: "@ + d@],
        None => Seq::empty(),
    }
}

/// The lines describing one installed template in detail.
pub fn info_lines(t: &TemplateMetadata) -> (r: Vec<String>)
    ensures
        crate::text::string_views(r@) == info_lines_of(*t),
{
    let mut out: Vec<String> = Vec::new();
    push_line(&mut out, joined("Template: ", t.name.as_str()));
    push_line(&mut out, joined("Source: ", t.source.as_str()));
    push_line(&mut out, joined("Installed: ", t.installed_at.as_str()));
    match &t.description {
        Some(d) => push_line(&mut out, joined("Description: ", d.as_str())),
        None => {},
    }
    proof {
        assert(crate::text::string_views(out@) =~= info_lines_of(*t));
    }
    out
}

/// The unit an archive size is shown in.
#[derive(Debug, Clone, Copy, PartialEq, Eq, Structural)]
pub enum SizeUnit {
    /// Plain bytes, below one kibibyte.
    Bytes,
    /// Kibibytes, below one mebibyte.
    Kilobytes,
    /// Mebibytes.
    Megabytes,
}

/// The unit an archive of `size` bytes is shown in.
pub fn size_unit(size: u64) -> (r: SizeUnit)
    ensures
        r == if size >= 1024 * 1024 {
            SizeUnit::Megabytes
        } else if size >= 1024 {
            SizeUnit::Kilobytes
        } else {
            SizeUnit::Bytes
        },
{
    if size >= 1024 * 1024 {
        SizeUnit::Megabytes
    } else if size >= 1024 {
        SizeUnit::Kilobytes
    } else {
        SizeUnit::Bytes
    }
}

} // verus!
