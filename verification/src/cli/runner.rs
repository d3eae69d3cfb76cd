//! The decisions of a generation run: which prompts are skipped, whether
//! the output directory may be used, which hooks exist and how they are
//! announced, and what is reported at the end.
use vstd::prelude::*;

use crate::cli::args::{should_skip_hooks, should_skip_overwrite, skips_hooks, skips_overwrite, Args};
use crate::cli::hooks::{get_hook_files, hook_path, hook_warning, hook_warning_message};
use crate::dialoguer::confirm;
use crate::error::{Error, Result};
use crate::paths::path_exists;
use crate::prompt::interface::{ConfirmationConfig, ConfirmationPrompter};
use crate::text::push_str;

verus! {

/// Main CLI runner that orchestrates the template generation workflow.
pub struct Runner {
    args: Args,
}

/// A path followed by a line break when the file exists, else nothing.
pub open spec fn path_line_if_exists(path: Seq<char>, exists: bool) -> Seq<char> {
    if exists {
        path + "\n"@
    } else {
        Seq::empty()
    }
}

/// The completion message of a run.
pub open spec fn completion_text(dry_run: bool, output_root: Seq<char>) -> Seq<char> {
    if dry_run {
        "[DRY RUN] Template processing completed. No files were actually created in "@ + output_root
            + "."@
    } else {
        "Template generation completed successfully in "@ + output_root + "."@
    }
}

/// The log line of an action skipped by a dry run.
pub open spec fn dry_run_text(action: Seq<char>, target: Seq<char>) -> Seq<char> {
    "[DRY RUN] "@ + action + ": "@ + target
}

impl Runner {
    /// The arguments of the run.
    pub closed spec fn args_spec(&self) -> Args {
        self.args
    }

    /// A runner for the given arguments.
    pub fn new(args: Args) -> (r: Self)
        ensures
            r.args_spec() == args,
    {
        Runner { args }
    }

    /// The arguments of the run.
    pub fn args(&self) -> (r: &Args)
        ensures
            *r == self.args_spec(),
    {
        &self.args
    }

    /// Determines if overwrite prompts should be skipped.
    pub fn should_skip_overwrite_prompts(&self) -> (r: bool)
        ensures
            r == skips_overwrite(self.args_spec().skip_confirms@),
    {
        should_skip_overwrite(self.args.skip_confirms.as_slice())
    }

    /// Determines if hook execution prompts should be skipped.
    pub fn should_skip_hook_prompts(&self) -> (r: bool)
        ensures
            r == skips_hooks(self.args_spec().skip_confirms@),
    {
        should_skip_hooks(self.args.skip_confirms.as_slice())
    }

    /// Ensures the output directory is safe to write to: an existing
    /// directory is refused unless `force` is set or the run is a dry run.
    pub fn get_output_dir(&self, output_dir: &str, exists: bool, force: bool, dry_run: bool) -> (r:
        Result<String>)
        ensures
            (exists && !force && !dry_run) <==> r is Err,
            r matches Ok(d) ==> d@ == output_dir@,
            r matches Err(e) ==> e matches Error::OutputDirectoryExistsError { output_dir: d } && d@
                == output_dir@,
    {
        if exists && !force && !dry_run {
            return Err(Error::OutputDirectoryExistsError { output_dir: String::from_str(output_dir) });
        }
        Ok(String::from_str(output_dir))
    }

    /// The file path and a line break if the file exists; otherwise an
    /// empty string.
    pub fn get_path_if_exists(&self, path: &str, exists: bool) -> (r: String)
        ensures
            r@ == path_line_if_exists(path@, exists),
    {
        if exists {
            let mut s = String::from_str(path);
            push_str(&mut s, "\n");
            proof {
                reveal_strlit("\n");
            }
            s
        } else {
            String::new()
        }
    }

    /// The question asked before hooks run, listing the scripts that exist;
    /// `None` when neither exists, in which case hooks are not run.
    pub fn hook_confirmation(&self, pre_hook_file: &str, pre_exists: bool, post_hook_file: &str, post_exists: bool) -> (r:
        Option<String>)
        ensures
            (pre_exists || post_exists) <==> r is Some,
            r matches Some(m) ==> m@ == hook_warning(
                if pre_exists {
                    Some(pre_hook_file@)
                } else {
                    None
                },
                if post_exists {
                    Some(post_hook_file@)
                } else {
                    None
                },
            ),
    {
        if !pre_exists && !post_exists {
            return None;
        }
        let pre = if pre_exists {
            Some(pre_hook_file)
        } else {
            None
        };
        let post = if post_exists {
            Some(post_hook_file)
        } else {
            None
        };
        Some(hook_warning_message(pre, post))
    }
}

/// The path of a hook when its script exists.
pub open spec fn existing(path: Seq<char>, exists: bool) -> Option<Seq<char>> {
    if exists {
        Some(path)
    } else {
        None
    }
}

/// The question asked before the hooks of the template in `dir` run,
/// given which of its scripts exist: `None` when neither does.
pub open spec fn hook_question(dir: Seq<char>, pre: Seq<char>, post: Seq<char>, pre_exists: bool, post_exists: bool) -> Option<Seq<char>> {
    if pre_exists || post_exists {
        Some(hook_warning(existing(hook_path(dir, pre), pre_exists), existing(hook_path(dir, post), post_exists)))
    } else {
        None
    }
}

/// The outcome `r` of asking consent to run hooks: with no question (no
/// hook exists) the hooks are not run; skipping the check gives consent;
/// otherwise `r` is a reply of `prompter` to the question with default no.
pub open spec fn consented<P: ConfirmationPrompter>(
    prompter: P,
    skip: bool,
    question: Option<Seq<char>>,
    r: Result<bool>,
) -> bool {
    match question {
        None => r == Ok::<bool, Error>(false),
        Some(q) => if skip {
            r == Ok::<bool, Error>(true)
        } else {
            exists|c: ConfirmationConfig| c.prompt@ == q && !c.default && #[trigger] prompter.may_reply(c, r)
        },
    }
}

impl Runner {
    /// Asks whether the hooks of the template in `template_dir` may run:
    /// no when neither the pre- nor the post-hook script exists; yes when
    /// `skip_hooks_check` is set; otherwise the user's reply to a warning
    /// that lists the scripts found.
    pub fn confirm_hook_execution<P: ConfirmationPrompter>(
        &self,
        prompter: &P,
        template_dir: &str,
        skip_hooks_check: bool,
        pre_hook_filename: &str,
        post_hook_filename: &str,
    ) -> (r: Result<bool>)
        ensures
            exists|pre_exists: bool, post_exists: bool|
                consented(
                    *prompter,
                    skip_hooks_check,
                    #[trigger] hook_question(template_dir@, pre_hook_filename@, post_hook_filename@, pre_exists, post_exists),
                    r,
                ),
    {
        let (pre_file, post_file) = get_hook_files(template_dir, pre_hook_filename, post_hook_filename);
        let pre_exists = path_exists(pre_file.as_str());
        let post_exists = path_exists(post_file.as_str());
        let ghost question_text = if pre_exists || post_exists {
            Some(hook_warning(existing(pre_file@, pre_exists), existing(post_file@, post_exists)))
        } else {
            None
        };
        let r = match self.hook_confirmation(pre_file.as_str(), pre_exists, post_file.as_str(), post_exists) {
            None => Ok(false),
            Some(question) => {
                let ghost q = question@;
                let r = confirm(prompter, skip_hooks_check, question);
                proof {
                    assert(question_text == Some(q));
                    if !skip_hooks_check {
                        let c = ConfirmationConfig { prompt: question, default: false };
                        assert(c.prompt@ == q && !c.default && prompter.may_reply(c, r));
                    }
                }
                r
            },
        };
        assert(consented(*prompter, skip_hooks_check, question_text, r));
        assert(consented(
            *prompter,
            skip_hooks_check,
            hook_question(template_dir@, pre_hook_filename@, post_hook_filename@, pre_exists, post_exists),
            r,
        ));
        r
    }
}

/// Produces the user-facing completion string for the current run,
/// accounting for dry-run mode.
pub fn completion_message(dry_run: bool, output_root: &str) -> (r: String)
    ensures
        r@ == completion_text(dry_run, output_root@),
{
    proof {
        reveal_strlit("[DRY RUN] Template processing completed. No files were actually created in ");
        reveal_strlit("Template generation completed successfully in ");
        reveal_strlit(".");
    }
    let mut s = if dry_run {
        String::from_str("[DRY RUN] Template processing completed. No files were actually created in ")
    } else {
        String::from_str("Template generation completed successfully in ")
    };
    push_str(&mut s, output_root);
    push_str(&mut s, ".");
    s
}

/// The standardised dry-run log entry for an action and its target.
pub fn log_dry_run_action(action: &str, target: &str) -> (r: String)
    ensures
        r@ == dry_run_text(action@, target@),
{
    proof {
        reveal_strlit("[DRY RUN] ");
        reveal_strlit(": ");
    }
    let mut s = String::from_str("[DRY RUN] ");
    push_str(&mut s, action);
    push_str(&mut s, ": ");
    push_str(&mut s, target);
    s
}

} // verus!
