//! The patterns of files that are never processed: built-in ones and those
//! listed in a template's `.bakerignore` file.
use vstd::prelude::*;

use crate::error::Result;
use crate::globs::{all_parse, build_glob_set, set_builds, set_patterns};
use crate::paths::{path_join, path_join_exec};
use crate::text::{chars_of, lines, lines_view, lines_of, string_of, string_views, trim_white, trim_white_exec, lemma_string_views_push};

verus! {

/// Number of default ignore patterns.
pub const DEFAULT_IGNORE_PATTERNS_LEN: usize = 13;

/// Default patterns to always ignore during template processing
pub const DEFAULT_IGNORE_PATTERNS: [&'static str; 13] = [
    ".git/**",
    ".git",
    ".hg/**",
    ".hg",
    ".svn/**",
    ".svn",
    "**/.DS_Store",
    ".bakerignore",
    "hooks",
    "hooks/**",
    "baker.yaml",
    "baker.yml",
    "baker.json",
];

/// A line of `.bakerignore` that holds a pattern: not empty, not a comment.
pub open spec fn is_pattern_line(line: Seq<char>) -> bool {
    line.len() > 0 && line[0] != '#'
}

/// The patterns of a list of lines: each line trimmed, blank lines and
/// comments dropped.
pub open spec fn pattern_lines(ls: Seq<Seq<char>>) -> Seq<Seq<char>>
    decreases ls.len(),
{
    if ls.len() == 0 {
        Seq::empty()
    } else {
        let rest = pattern_lines(ls.drop_last());
        let t = trim_white(ls.last());
        if is_pattern_line(t) {
            rest.push(t)
        } else {
            rest
        }
    }
}

/// Each pattern joined onto the template root.
pub open spec fn rooted(root: Seq<char>, ps: Seq<Seq<char>>) -> Seq<Seq<char>> {
    ps.map_values(|p: Seq<char>| path_join(root, p))
}

/// The default ignore patterns.
pub open spec fn default_ignore_patterns() -> Seq<Seq<char>> {
    DEFAULT_IGNORE_PATTERNS@.map_values(|p: &str| p@)
}

/// The ignore patterns of a template: the defaults, then the patterns of
/// its `.bakerignore` file when it has one, all joined onto the root.
pub open spec fn ignore_patterns(root: Seq<char>, ignore_file: Option<Seq<char>>) -> Seq<Seq<char>> {
    rooted(root, default_ignore_patterns()) + match ignore_file {
        Some(c) => rooted(root, pattern_lines(lines_of(c))),
        None => Seq::empty(),
    }
}

/// Appends `p` joined onto `root` to the list.
fn push_rooted(out: &mut Vec<String>, root: &str, p: &str)
    ensures
        string_views(final(out)@) == string_views(old(out)@).push(path_join(root@, p@)),
{
    let joined = path_join_exec(root, p);
    let ghost before = out@;
    out.push(joined);
    proof {
        lemma_string_views_push(before, joined);
    }
}

/// The ignore patterns of a template rooted at `template_root`, given the
/// content of its `.bakerignore` file when it has one.
pub fn ignore_pattern_list(template_root: &str, ignore_file: Option<&str>) -> (r: Vec<String>)
    ensures
        string_views(r@) == ignore_patterns(
            template_root@,
            match ignore_file {
                Some(c) => Some(c@),
                None => None,
            },
        ),
{
    let mut out: Vec<String> = Vec::new();
    let ghost defaults = default_ignore_patterns();
    let mut i: usize = 0;
    while i < DEFAULT_IGNORE_PATTERNS_LEN
        invariant
            i <= 13,
            defaults == default_ignore_patterns(),
            defaults.len() == 13,
            string_views(out@) == rooted(template_root@, defaults.subrange(0, i as int)),
        decreases 13 - i,
    {
        push_rooted(&mut out, template_root, DEFAULT_IGNORE_PATTERNS[i]);
        proof {
            assert(defaults[i as int] == DEFAULT_IGNORE_PATTERNS@[i as int]@);
            assert(rooted(template_root@, defaults.subrange(0, i + 1)) =~= rooted(
                template_root@,
                defaults.subrange(0, i as int),
            ).push(path_join(template_root@, defaults[i as int])));
        }
        i += 1;
    }
    proof {
        assert(defaults.subrange(0, 13) =~= defaults);
    }
    let ghost base = string_views(out@);
    match ignore_file {
        None => {
            proof {
                assert(base + Seq::<Seq<char>>::empty() =~= base);
            }
        },
        Some(contents) => {
            let cs = chars_of(contents);
            let ls = lines(&cs);
            let ghost lv = lines_view(ls@);
            let mut j: usize = 0;
            while j < ls.len()
                invariant
                    j <= ls@.len(),
                    lv == lines_view(ls@),
                    lv == lines_of(contents@),
                    string_views(out@) == base + rooted(template_root@, pattern_lines(lv.take(j as int))),
                decreases ls@.len() - j,
            {
                let t = trim_white_exec(ls[j].as_slice());
                proof {
                    assert(lv.take(j + 1).drop_last() =~= lv.take(j as int));
                    assert(lv.take(j + 1).last() == ls@[j as int]@);
                }
                if t.len() > 0 && t[0] != '#' {
                    let line = string_of(t.as_slice());
                    push_rooted(&mut out, template_root, line.as_str());
                    proof {
                        assert(rooted(template_root@, pattern_lines(lv.take(j + 1))) =~= rooted(
                            template_root@,
                            pattern_lines(lv.take(j as int)),
                        ).push(path_join(template_root@, line@)));
                    }
                }
                j += 1;
            }
            proof {
                assert(lv.take(ls@.len() as int) =~= lv);
            }
        },
    }
    out
}

/// Reads the ignore patterns of a template into a glob set: the defaults,
/// then the patterns of its `.bakerignore` file (`ignore_file`, its
/// content when it exists), all joined onto the template root. A pattern
/// that does not parse is an error.
pub fn parse_bakerignore_file(template_root: &str, ignore_file: Option<&str>) -> (r: Result<
    globset::GlobSet,
>)
    ensures
        r matches Ok(s) ==> set_patterns(s) == ignore_patterns(
            template_root@,
            match ignore_file {
                Some(c) => Some(c@),
                None => None,
            },
        ),
        !all_parse(
            ignore_patterns(
                template_root@,
                match ignore_file {
                    Some(c) => Some(c@),
                    None => None,
                },
            ),
        ) ==> r is Err,
        all_parse(
            ignore_patterns(
                template_root@,
                match ignore_file {
                    Some(c) => Some(c@),
                    None => None,
                },
            ),
        ) ==> (r is Ok <==> set_builds(
            ignore_patterns(
                template_root@,
                match ignore_file {
                    Some(c) => Some(c@),
                    None => None,
                },
            ),
        )),
        r matches Err(e) ==> e is GlobSetParseError,
{
    let patterns = ignore_pattern_list(template_root, ignore_file);
    build_glob_set(&patterns)
}

/// Every line kept from a `.bakerignore` file is a pattern: not empty and
/// not a comment.
pub proof fn law_kept_lines_are_patterns(ls: Seq<Seq<char>>)
    ensures
        forall|i: int| 0 <= i < pattern_lines(ls).len() ==> is_pattern_line(#[trigger] pattern_lines(ls)[i]),
    decreases ls.len(),
{
    if ls.len() > 0 {
        let rest = pattern_lines(ls.drop_last());
        law_kept_lines_are_patterns(ls.drop_last());
        let t = trim_white(ls.last());
        if is_pattern_line(t) {
            assert forall|i: int| 0 <= i < rest.push(t).len() implies is_pattern_line(#[trigger] rest.push(t)[i]) by {
                if i < rest.len() {
                    assert(rest.push(t)[i] == rest[i]);
                }
            }
        }
    }
}

/// The built-in patterns are always ignored, first and in order, whatever
/// the `.bakerignore` file holds.
pub proof fn law_defaults_always_ignored(root: Seq<char>, ignore_file: Option<Seq<char>>)
    ensures
        ignore_patterns(root, ignore_file).len() >= DEFAULT_IGNORE_PATTERNS_LEN,
        ignore_patterns(root, ignore_file).take(DEFAULT_IGNORE_PATTERNS_LEN as int) == rooted(
            root,
            default_ignore_patterns(),
        ),
        ignore_file is None ==> ignore_patterns(root, ignore_file) == rooted(root, default_ignore_patterns()),
{
    let d = rooted(root, default_ignore_patterns());
    assert(d.len() == 13);
    assert(ignore_patterns(root, ignore_file).take(13) =~= d);
    if ignore_file is None {
        assert(ignore_patterns(root, ignore_file) =~= d);
    }
}

} // verus!
