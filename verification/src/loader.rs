//! Where a template given on the command line comes from.
use vstd::prelude::*;

use crate::text::{chars_of, ends_with, has_prefix, has_suffix, starts_with};

verus! {

/// The kinds of template sources, in the order they are tried.
#[derive(Debug, Clone, Copy, PartialEq, Eq, Structural)]
pub enum SourceKind {
    /// A directory on disk.
    Directory,
    /// A template installed in the store under that name.
    Installed,
    /// A git repository to clone.
    Repository,
    /// None of these.
    Missing,
}

/// A source text that names a git repository: an `http(s)://` or `git@`
/// address, or one ending in `.git`.
pub open spec fn repository_like(s: Seq<char>) -> bool {
    has_prefix(s, "https://"@) || has_prefix(s, "http://"@) || has_prefix(s, "git@"@) || has_suffix(s, ".git"@)
}

/// The kind of a source: a directory first, then an installed template,
/// then a repository address.
pub open spec fn kind_of(is_dir: bool, installed: bool, repository: bool) -> SourceKind {
    if is_dir {
        SourceKind::Directory
    } else if installed {
        SourceKind::Installed
    } else if repository {
        SourceKind::Repository
    } else {
        SourceKind::Missing
    }
}

/// Whether a source text names a git repository.
pub fn is_git_url(source: &str) -> (r: bool)
    ensures
        r == repository_like(source@),
{
    proof {
        reveal_strlit("https://");
        reveal_strlit("http://");
        reveal_strlit("git@");
        reveal_strlit(".git");
    }
    let cs = chars_of(source);
    starts_with(&cs, &chars_of("https://")) || starts_with(&cs, &chars_of("http://")) || starts_with(
        &cs,
        &chars_of("git@"),
    ) || ends_with(&cs, &chars_of(".git"))
}

/// The kind of a source, given whether it is a directory and whether a
/// template of that name is installed.
pub fn source_kind(source: &str, is_dir: bool, installed: bool) -> (r: SourceKind)
    ensures
        r == kind_of(is_dir, installed, repository_like(source@)),
{
    if is_dir {
        SourceKind::Directory
    } else if installed {
        SourceKind::Installed
    } else if is_git_url(source) {
        SourceKind::Repository
    } else {
        SourceKind::Missing
    }
}

} // verus!
