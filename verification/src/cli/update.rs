//! `baker update`: the decisions of re-running generation when the template
//! has changed, with conflict markers in files the user has modified.
use vstd::prelude::*;

use crate::cli::args::{should_skip_hooks, should_skip_overwrite, skips_hooks, skips_overwrite, UpdateArgs};
use crate::cli::hooks::{hook_warning, hook_warning_message};
use crate::cli::runner::{dry_run_text, log_dry_run_action};
use crate::constants::DEFAULT_GENERATED_FILE_NAME;
use crate::error::{Error, Result};
use crate::generated::{same_content, sources_are_identical, TemplateSourceInfo};
use crate::json::{clone_json, object_map, Json, JsonMap, JsonValue};

verus! {

/// Runs `baker update` in a working directory.
pub struct UpdateRunner {
    args: UpdateArgs,
    working_dir: String,
}

/// An override source that can be merged: absent, or parsed to an object.
pub open spec fn mergeable(source: Option<Result<JsonValue>>) -> bool {
    match source {
        None => true,
        Some(Ok(v)) => v@ is Object,
        Some(Err(_)) => false,
    }
}

/// The answers an override source adds.
pub open spec fn override_map(source: Option<Result<JsonValue>>) -> Map<Seq<char>, Json> {
    match source {
        Some(Ok(v)) => object_map(v@),
        _ => Map::empty(),
    }
}

/// The error of an override source that cannot be merged.
pub open spec fn override_error(source: Option<Result<JsonValue>>) -> Error {
    match source {
        Some(Err(e)) => e,
        _ => Error::AnswersNotObject,
    }
}

/// Whether hooks run, are refused, or must be asked about.
#[derive(Debug)]
pub enum HookConsent {
    /// Hooks do not run: there are none, or the run is a dry run.
    No,
    /// Hooks run without asking.
    Yes,
    /// Ask the user this question.
    Ask(String),
}

/// The first line printed when the template is unchanged.
pub open spec fn unchanged_text() -> Seq<char> {
    "Template has not changed since last generation — nothing to do."@
}

/// What an update does once its template has been fetched again.
#[derive(Debug)]
pub enum UpdateStart {
    /// The template is unchanged: the message is printed and the update
    /// stops; nothing is written, no hook runs and nothing is asked.
    Unchanged(String),
    /// The answers are merged and the project is generated again.
    Regenerate,
}

/// What happens to the generated-metadata file at the end of an update.
#[derive(Debug)]
pub enum MetadataStep {
    /// A dry run: the line is reported and nothing is written.
    Report(String),
    /// The updated record is written.
    Write,
}

impl UpdateRunner {
    /// The first step of an update, from the stored and the freshly fetched
    /// template sources: stop when they have the same content, else
    /// generate again.
    pub fn update_start(&self, stored: &TemplateSourceInfo, fresh: &TemplateSourceInfo) -> (r: UpdateStart)
        ensures
            same_content(*stored, *fresh) ==> (r matches UpdateStart::Unchanged(m) && m@ == unchanged_text()),
            !same_content(*stored, *fresh) ==> r is Regenerate,
    {
        if sources_are_identical(stored, fresh) {
            UpdateStart::Unchanged(unchanged_message())
        } else {
            UpdateStart::Regenerate
        }
    }
}

/// The last step of an update: a dry run reports the metadata file it would
/// write; otherwise the file is written.
pub fn metadata_step(dry_run: bool, metadata_path: &str) -> (r: MetadataStep)
    ensures
        dry_run ==> (r matches MetadataStep::Report(m) && m@ == dry_run_text(
            "Would write updated generated metadata to"@,
            metadata_path@,
        )),
        !dry_run ==> r is Write,
{
    if dry_run {
        MetadataStep::Report(log_dry_run_action("Would write updated generated metadata to", metadata_path))
    } else {
        MetadataStep::Write
    }
}

/// The message printed at the end of an update.
pub open spec fn update_done_text(dry_run: bool) -> Seq<char> {
    if dry_run {
        "[DRY RUN] Update complete (no files were modified)"@
    } else {
        "Update complete. Check files for conflict markers (<<<<<<< current)."@
    }
}

impl UpdateRunner {
    /// The arguments of the update.
    pub closed spec fn args_spec(&self) -> UpdateArgs {
        self.args
    }

    /// The directory of the generated project.
    pub closed spec fn working_dir_spec(&self) -> Seq<char> {
        self.working_dir@
    }

    /// An update of the project in the current directory (`.`).
    pub fn new(args: UpdateArgs) -> (r: Self)
        ensures
            r.args_spec() == args,
            r.working_dir_spec() == "."@,
    {
        proof {
            reveal_strlit(".");
        }
        UpdateRunner { args, working_dir: String::from_str(".") }
    }

    /// An update of the project in `working_dir`.
    pub fn with_working_dir(args: UpdateArgs, working_dir: String) -> (r: Self)
        ensures
            r.args_spec() == args,
            r.working_dir_spec() == working_dir@,
    {
        UpdateRunner { args, working_dir }
    }

    /// The arguments of the update.
    pub fn args(&self) -> (r: &UpdateArgs)
        ensures
            *r == self.args_spec(),
    {
        &self.args
    }

    /// The directory of the generated project.
    pub fn working_dir(&self) -> (r: &str)
        ensures
            r@ == self.working_dir_spec(),
    {
        self.working_dir.as_str()
    }

    /// The name of the generated-metadata file: the one given, else the
    /// default.
    pub fn generated_file_name(&self) -> (r: &str)
        ensures
            r@ == match self.args_spec().generated_file {
                Some(n) => n@,
                None => DEFAULT_GENERATED_FILE_NAME@,
            },
    {
        match &self.args.generated_file {
            Some(n) => n.as_str(),
            None => DEFAULT_GENERATED_FILE_NAME,
        }
    }

    /// Whether a fresh fetch of the template has the content recorded at
    /// generation time.
    pub fn sources_are_identical(&self, stored: &TemplateSourceInfo, fresh: &TemplateSourceInfo) -> (r:
        bool)
        ensures
            r == same_content(*stored, *fresh),
    {
        sources_are_identical(stored, fresh)
    }

    /// Merges saved answers with the overrides: first the parsed answers
    /// file, then the parsed inline answers; a later source wins on a shared
    /// key. A saved value that is not an object counts as no answers; an
    /// override that failed to parse, or is not an object, is an error.
    pub fn merge_answers(
        &self,
        saved: JsonValue,
        file_answers: Option<Result<JsonValue>>,
        inline_answers: Option<Result<JsonValue>>,
    ) -> (r: Result<JsonValue>)
        ensures
            r is Ok <==> mergeable(file_answers) && mergeable(inline_answers),
            r matches Ok(v) ==> v@ is Object && object_map(v@) == object_map(saved@).union_prefer_right(
                override_map(file_answers),
            ).union_prefer_right(override_map(inline_answers)),
            r matches Err(e) ==> e == if !mergeable(file_answers) {
                override_error(file_answers)
            } else {
                override_error(inline_answers)
            },
    {
        let mut base = match saved {
            JsonValue::Object(m) => m,
            _ => JsonMap::new(),
        };
        match file_answers {
            None => {},
            Some(Err(e)) => {
                return Err(e);
            },
            Some(Ok(JsonValue::Object(extra))) => {
                base.extend(extra);
            },
            Some(Ok(_)) => {
                return Err(Error::AnswersNotObject);
            },
        }
        match inline_answers {
            None => {},
            Some(Err(e)) => {
                return Err(e);
            },
            Some(Ok(JsonValue::Object(extra))) => {
                base.extend(extra);
            },
            Some(Ok(_)) => {
                return Err(Error::AnswersNotObject);
            },
        }
        Ok(JsonValue::Object(base))
    }

    /// Determines if overwrite prompts should be skipped.
    pub fn should_skip_overwrite_prompts(&self) -> (r: bool)
        ensures
            r == skips_overwrite(self.args_spec().skip_confirms@),
    {
        should_skip_overwrite(self.args.skip_confirms.as_slice())
    }

    /// Determines if hook execution prompts should be skipped.
    pub fn should_skip_hook_prompts(&self) -> (r: bool)
        ensures
            r == skips_hooks(self.args_spec().skip_confirms@),
    {
        should_skip_hooks(self.args.skip_confirms.as_slice())
    }

    /// One combined decision for both hooks: no hooks run when neither
    /// script exists or in a dry run; otherwise they run without asking
    /// when hook prompts are skipped, else the user is asked.
    pub fn confirm_hooks(
        &self,
        pre_hook_file: &str,
        pre_exists: bool,
        post_hook_file: &str,
        post_exists: bool,
        dry_run: bool,
    ) -> (r: HookConsent)
        ensures
            (!pre_exists && !post_exists) || dry_run ==> r is No,
            !(!pre_exists && !post_exists) && !dry_run && skips_hooks(self.args_spec().skip_confirms@)
                ==> r is Yes,
            !(!pre_exists && !post_exists) && !dry_run && !skips_hooks(
                self.args_spec().skip_confirms@,
            ) ==> (r matches HookConsent::Ask(m) && m@ == hook_warning(
                if pre_exists {
                    Some(pre_hook_file@)
                } else {
                    None
                },
                if post_exists {
                    Some(post_hook_file@)
                } else {
                    None
                },
            )),
    {
        if !pre_exists && !post_exists {
            return HookConsent::No;
        }
        if dry_run {
            return HookConsent::No;
        }
        if self.should_skip_hook_prompts() {
            return HookConsent::Yes;
        }
        let pre = if pre_exists {
            Some(pre_hook_file)
        } else {
            None
        };
        let post = if post_exists {
            Some(post_hook_file)
        } else {
            None
        };
        HookConsent::Ask(hook_warning_message(pre, post))
    }
}

/// The answers after the pre-hook: when the hook printed a JSON object and
/// the answers so far are an object, the hook's entries override them;
/// otherwise `None` (the answers stay as they are).
pub fn merge_hook_answers(answers: &JsonValue, hook_output: Option<Result<JsonValue>>) -> (r: Option<
    JsonValue,
>)
    ensures
        (answers@ is Object && (hook_output matches Some(Ok(h)) && h@ is Object)) <==> r is Some,
        r matches Some(v) ==> v@ is Object && object_map(v@) == object_map(answers@).union_prefer_right(
            override_map(hook_output),
        ),
{
    match hook_output {
        Some(Ok(JsonValue::Object(extra))) => {
            if answers.is_object() {
                let copy = clone_json(answers);
                match copy {
                    JsonValue::Object(mut base) => {
                        base.extend(extra);
                        Some(JsonValue::Object(base))
                    },
                    _ => None,
                }
            } else {
                None
            }
        },
        _ => None,
    }
}

/// The message printed at the end of an update.
pub fn update_done_message(dry_run: bool) -> (r: String)
    ensures
        r@ == update_done_text(dry_run),
{
    proof {
        reveal_strlit("[DRY RUN] Update complete (no files were modified)");
        reveal_strlit("Update complete. Check files for conflict markers (<<<<<<< current).");
    }
    if dry_run {
        String::from_str("[DRY RUN] Update complete (no files were modified)")
    } else {
        String::from_str("Update complete. Check files for conflict markers (<<<<<<< current).")
    }
}

/// The message printed when the template is unchanged.
pub fn unchanged_message() -> (r: String)
    ensures
        r@ == unchanged_text(),
{
    proof {
        reveal_strlit("Template has not changed since last generation — nothing to do.");
    }
    String::from_str("Template has not changed since last generation — nothing to do.")
}

/// Without overrides, merging keeps the saved answers (an empty object when
/// they were not an object).
pub proof fn law_merge_without_overrides_keeps_saved(saved: Json)
    ensures
        object_map(saved).union_prefer_right(override_map(None)).union_prefer_right(
            override_map(None),
        ) == object_map(saved),
        mergeable(None),
{
    assert(object_map(saved).union_prefer_right(override_map(None)) =~= object_map(saved));
}

} // verus!
