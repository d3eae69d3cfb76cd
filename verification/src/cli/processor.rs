//! What happens to each template entry: the operations a template entry
//! turns into, and when the user is asked before a file is overwritten.
use vstd::prelude::*;

use crate::cli::args::{should_skip_overwrite, skips_overwrite};
use crate::cli::context::GenerationContext;
use crate::globs::{glob_set_matches, set_is_match, set_patterns};
use crate::text::{chars_of, ends_with, has_suffix, push_str};

verus! {

/// One file to write.
#[derive(Debug)]
pub struct WriteOp {
    /// The file written.
    pub target: String,
    /// Its new content.
    pub content: String,
    /// Whether the file exists already.
    pub target_exists: bool,
}

/// What a template entry turns into.
#[derive(Debug)]
pub enum TemplateOperation {
    /// Write rendered content to a file.
    Write { target: String, content: String, target_exists: bool },
    /// Copy a file as it is.
    Copy { source: String, target: String, target_exists: bool },
    /// Create a directory.
    CreateDirectory { target: String, target_exists: bool },
    /// Leave the entry out.
    Ignore { source: String },
    /// Write several files (a loop in a file name).
    MultipleWrite { source: String, writes: Vec<WriteOp> },
}

/// What is done with an entry of the template directory.
#[derive(Debug, Clone, Copy, PartialEq, Eq, Structural)]
pub enum EntryAction {
    /// Leave it out: the template root itself, or an ignored path.
    Skip,
    /// Create the directory at each of its output paths.
    Directory,
    /// Recreate the symbolic link at each of its output paths.
    Link,
    /// Render the template's content to each of its output paths.
    Render,
    /// Copy the file's content to each of its output paths.
    Copy,
}

/// What is done with the entry at `relative` (its path below the template
/// root): the root itself and ignored entries are skipped; a directory is
/// created; a symbolic link that is not followed and is no template is
/// recreated; a template (a path with the template suffix) is rendered;
/// any other file is copied.
pub open spec fn entry_action_of(
    relative: Seq<char>,
    ignored: bool,
    is_dir: bool,
    is_symlink: bool,
    follow_symlinks: bool,
    suffix: Seq<char>,
) -> EntryAction {
    if relative.len() == 0 || ignored {
        EntryAction::Skip
    } else if is_dir {
        EntryAction::Directory
    } else if is_symlink && !follow_symlinks && !has_suffix(relative, suffix) {
        EntryAction::Link
    } else if has_suffix(relative, suffix) {
        EntryAction::Render
    } else {
        EntryAction::Copy
    }
}

/// An entry that an ignore pattern matches is left out, whatever it is.
pub proof fn law_ignored_entries_are_skipped(
    relative: Seq<char>,
    is_dir: bool,
    is_symlink: bool,
    follow_symlinks: bool,
    suffix: Seq<char>,
)
    ensures
        entry_action_of(relative, true, is_dir, is_symlink, follow_symlinks, suffix) == EntryAction::Skip,
{
}

/// Decides what is done with the template entry at `path`, whose path below
/// the template root is `relative`: it is ignored when a pattern of
/// `ignored` matches `path`.
pub fn entry_action(
    ignored: &globset::GlobSet,
    path: &str,
    relative: &str,
    is_dir: bool,
    is_symlink: bool,
    follow_symlinks: bool,
    template_suffix: &str,
) -> (r: EntryAction)
    ensures
        r == entry_action_of(
            relative@,
            glob_set_matches(set_patterns(*ignored), path@),
            is_dir,
            is_symlink,
            follow_symlinks,
            template_suffix@,
        ),
{
    if relative.is_empty() || set_is_match(ignored, path) {
        return EntryAction::Skip;
    }
    if is_dir {
        return EntryAction::Directory;
    }
    let rel = chars_of(relative);
    let suffix = chars_of(template_suffix);
    let is_template = ends_with(&rel, &suffix);
    if is_symlink && !follow_symlinks && !is_template {
        EntryAction::Link
    } else if is_template {
        EntryAction::Render
    } else {
        EntryAction::Copy
    }
}

/// The question asked before `target` is overwritten.
pub open spec fn overwrite_question(target: Seq<char>) -> Seq<char> {
    "Overwrite "@ + target + "?"@
}

/// Processes the operations of a run against its context.
pub struct FileProcessor<'a> {
    context: &'a GenerationContext,
}

impl<'a> FileProcessor<'a> {
    /// The context of the run.
    pub closed spec fn context_spec(&self) -> GenerationContext {
        *self.context
    }

    /// A processor for the run described by `context`.
    pub fn new(context: &'a GenerationContext) -> (r: Self)
        ensures
            r.context_spec() == *context,
    {
        FileProcessor { context }
    }

    /// The overwrite prompt is skipped when overwrite prompts are turned off
    /// or the target does not exist yet.
    pub fn should_skip_overwrite_prompt(&self, target_exists: bool) -> (r: bool)
        ensures
            r == (skips_overwrite(self.context_spec().skip_confirms_spec()) || !target_exists),
    {
        should_skip_overwrite(self.context.skip_confirms()) || !target_exists
    }

    /// The question to ask before writing `target`, or `None` when the
    /// write goes ahead without asking.
    pub fn overwrite_prompt(&self, target: &str, target_exists: bool) -> (r: Option<String>)
        ensures
            (skips_overwrite(self.context_spec().skip_confirms_spec()) || !target_exists) <==> r is None,
            r matches Some(q) ==> q@ == overwrite_question(target@),
    {
        if self.should_skip_overwrite_prompt(target_exists) {
            return None;
        }
        proof {
            reveal_strlit("Overwrite ");
            reveal_strlit("?");
        }
        let mut q = String::from_str("Overwrite ");
        push_str(&mut q, target);
        push_str(&mut q, "?");
        Some(q)
    }

    /// Whether files are really written (not in a dry run).
    pub fn touches_files(&self) -> (r: bool)
        ensures
            r == !self.context_spec().dry_run_spec(),
    {
        !self.context.dry_run()
    }

    /// Whether a directory operation needs the directory created.
    pub fn needs_directory(&self, target_exists: bool) -> (r: bool)
        ensures
            r == (!target_exists && !self.context_spec().dry_run_spec()),
    {
        !target_exists && !self.context.dry_run()
    }
}

} // verus!
