//! The community template registry, and GitHub URLs of custom templates.
//!
//! Each entry points at a GitHub repository (and optional sub-path) that
//! holds a `baker.yaml`.
use vstd::prelude::*;

use crate::text::{
    chars_of, contains, contains_seq, has_prefix, lines_view, lowercase, str_eq, to_lowercase, push_chars, push_str, splitn_exec, splitn_on, string_of,
    string_views, trim_end_char, trim_end_char_exec, trim_white, trim_white_exec, is_white, trim_start_white,
    trim_end_white,
};
use crate::web::models::TemplateEntry;

verus! {

/// The text of an entry: name, description, tags, owner, repository,
/// branch and sub-path.
pub open spec fn entry_text(e: TemplateEntry) -> (
    Seq<char>,
    Seq<char>,
    Seq<Seq<char>>,
    Seq<char>,
    Seq<char>,
    Seq<char>,
    Seq<char>,
) {
    (e.name@, e.description@, string_views(e.tags@), e.owner@, e.repo@, e.branch@, e.path@)
}

/// The `i`-th entry of the community registry.
pub open spec fn community_entry(i: int) -> (
    Seq<char>,
    Seq<char>,
    Seq<Seq<char>>,
    Seq<char>,
    Seq<char>,
    Seq<char>,
    Seq<char>,
) {
    if i == 0 {
        (
            "Demo (Python)"@,
            "A minimal Python project with optional tests, author, and slug."@,
            seq!["python"@, "starter"@],
            "aliev"@,
            "baker"@,
            "main"@,
            "examples/demo"@,
        )
    } else if i == 1 {
        (
            "Hooks Demo"@,
            "Template demonstrating pre/post hook execution with licence selection."@,
            seq!["hooks"@, "licence"@],
            "aliev"@,
            "baker"@,
            "main"@,
            "examples/hooks"@,
        )
    } else if i == 2 {
        (
            "Loop Templates"@,
            "Showcases baker loop expressions in filenames and nested conditionals."@,
            seq!["advanced"@, "loop"@],
            "aliev"@,
            "baker"@,
            "main"@,
            "examples/loop"@,
        )
    } else if i == 3 {
        (
            "Custom Filters"@,
            "Demonstrates all baker built-in Jinja2 filters."@,
            seq!["filters"@, "jinja2"@],
            "aliev"@,
            "baker"@,
            "main"@,
            "examples/filters"@,
        )
    } else if i == 4 {
        (
            "Macro Imports"@,
            "Shows how to split templates across multiple files using imports."@,
            seq!["macros"@, "advanced"@],
            "aliev"@,
            "baker"@,
            "main"@,
            "examples/import"@,
        )
    } else if i == 5 {
        (
            "Python Package"@,
            "Modern Python package with pyproject.toml, ruff, pytest and CI."@,
            seq!["python"@, "package"@, "ci"@],
            "aliev"@,
            "baker-template-python-package"@,
            "main"@,
            ""@,
        )
    } else if i == 6 {
        (
            "Rust CLI"@,
            "Rust command-line tool scaffolded with clap and GitHub Actions CI."@,
            seq!["rust"@, "cli"@],
            "aliev"@,
            "baker-template-rust-cli"@,
            "main"@,
            ""@,
        )
    } else if i == 7 {
        (
            "FastAPI Service"@,
            "Production-ready FastAPI micro-service with Docker, tests, and OpenAPI."@,
            seq!["python"@, "fastapi"@, "docker"@],
            "aliev"@,
            "baker-template-fastapi"@,
            "main"@,
            ""@,
        )
    } else {
        (
            "TypeScript Library"@,
            "TypeScript library with Vite, Vitest, and semantic-release."@,
            seq!["typescript"@, "library"@],
            "aliev"@,
            "baker-template-ts-lib"@,
            "main"@,
            ""@,
        )
    }
}

/// Number of entries in the community registry.
pub const COMMUNITY_TEMPLATE_COUNT: usize = 9;

/// A list of tags.
fn tags(items: &[&str]) -> (r: Vec<String>)
    ensures
        string_views(r@) == items@.map_values(|t: &str| t@),
{
    let mut out: Vec<String> = Vec::new();
    let mut i: usize = 0;
    while i < items.len()
        invariant
            i <= items@.len(),
            string_views(out@) == items@.take(i as int).map_values(|t: &str| t@),
        decreases items@.len() - i,
    {
        let ghost before = out@;
        let t = String::from_str(items[i]);
        out.push(t);
        proof {
            crate::text::lemma_string_views_push(before, t);
            assert(items@.take(i + 1).map_values(|t: &str| t@) =~= items@.take(i as int).map_values(
                |t: &str| t@,
            ).push(items@[i as int]@));
        }
        i += 1;
    }
    proof {
        assert(items@.take(items@.len() as int) =~= items@);
    }
    out
}

/// An entry of the given texts.
fn entry(
    name: &str,
    description: &str,
    tag_list: Vec<String>,
    owner: &str,
    repo: &str,
    branch: &str,
    path: &str,
) -> (r: TemplateEntry)
    ensures
        entry_text(r) == (name@, description@, string_views(tag_list@), owner@, repo@, branch@, path@),
{
    TemplateEntry {
        name: String::from_str(name),
        description: String::from_str(description),
        tags: tag_list,
        owner: String::from_str(owner),
        repo: String::from_str(repo),
        branch: String::from_str(branch),
        path: String::from_str(path),
    }
}

/// The community template registry.
#[verifier::rlimit(50)]
pub fn community_templates() -> (r: Vec<TemplateEntry>)
    ensures
        r@.len() == COMMUNITY_TEMPLATE_COUNT,
        forall|i: int| 0 <= i < r@.len() ==> entry_text(#[trigger] r@[i]) == community_entry(i),
{
    let mut v: Vec<TemplateEntry> = Vec::new();
    let t0 = tags(&["python", "starter"]);
    assert(string_views(t0@) =~= seq!["python"@, "starter"@]);
    v.push(
        entry(
            "Demo (Python)",
            "A minimal Python project with optional tests, author, and slug.",
            t0,
            "aliev",
            "baker",
            "main",
            "examples/demo",
        ),
    );
    let t1 = tags(&["hooks", "licence"]);
    assert(string_views(t1@) =~= seq!["hooks"@, "licence"@]);
    v.push(
        entry(
            "Hooks Demo",
            "Template demonstrating pre/post hook execution with licence selection.",
            t1,
            "aliev",
            "baker",
            "main",
            "examples/hooks",
        ),
    );
    let t2 = tags(&["advanced", "loop"]);
    assert(string_views(t2@) =~= seq!["advanced"@, "loop"@]);
    v.push(
        entry(
            "Loop Templates",
            "Showcases baker loop expressions in filenames and nested conditionals.",
            t2,
            "aliev",
            "baker",
            "main",
            "examples/loop",
        ),
    );
    let t3 = tags(&["filters", "jinja2"]);
    assert(string_views(t3@) =~= seq!["filters"@, "jinja2"@]);
    v.push(
        entry(
            "Custom Filters",
            "Demonstrates all baker built-in Jinja2 filters.",
            t3,
            "aliev",
            "baker",
            "main",
            "examples/filters",
        ),
    );
    let t4 = tags(&["macros", "advanced"]);
    assert(string_views(t4@) =~= seq!["macros"@, "advanced"@]);
    v.push(
        entry(
            "Macro Imports",
            "Shows how to split templates across multiple files using imports.",
            t4,
            "aliev",
            "baker",
            "main",
            "examples/import",
        ),
    );
    let t5 = tags(&["python", "package", "ci"]);
    assert(string_views(t5@) =~= seq!["python"@, "package"@, "ci"@]);
    v.push(
        entry(
            "Python Package",
            "Modern Python package with pyproject.toml, ruff, pytest and CI.",
            t5,
            "aliev",
            "baker-template-python-package",
            "main",
            "",
        ),
    );
    let t6 = tags(&["rust", "cli"]);
    assert(string_views(t6@) =~= seq!["rust"@, "cli"@]);
    v.push(
        entry(
            "Rust CLI",
            "Rust command-line tool scaffolded with clap and GitHub Actions CI.",
            t6,
            "aliev",
            "baker-template-rust-cli",
            "main",
            "",
        ),
    );
    let t7 = tags(&["python", "fastapi", "docker"]);
    assert(string_views(t7@) =~= seq!["python"@, "fastapi"@, "docker"@]);
    v.push(
        entry(
            "FastAPI Service",
            "Production-ready FastAPI micro-service with Docker, tests, and OpenAPI.",
            t7,
            "aliev",
            "baker-template-fastapi",
            "main",
            "",
        ),
    );
    let t8 = tags(&["typescript", "library"]);
    assert(string_views(t8@) =~= seq!["typescript"@, "library"@]);
    v.push(
        entry(
            "TypeScript Library",
            "TypeScript library with Vite, Vitest, and semantic-release.",
            t8,
            "aliev",
            "baker-template-ts-lib",
            "main",
            "",
        ),
    );
    v
}

/// The message for a URL that is not a GitHub URL.
pub open spec fn unsupported_url_text() -> Seq<char> {
    "Only GitHub URLs are supported (https://github.com/owner/repo)"@
}

/// A URL with surrounding white space and trailing slashes removed.
pub open spec fn cleaned_url(url: Seq<char>) -> Seq<char> {
    trim_end_char(trim_white(url), '/')
}

/// The part of a GitHub URL after the host, if it is one.
pub open spec fn github_path(u: Seq<char>) -> Option<Seq<char>> {
    if has_prefix(u, "https://github.com/"@) {
        Some(u.subrange("https://github.com/"@.len() as int, u.len() as int))
    } else if has_prefix(u, "http://github.com/"@) {
        Some(u.subrange("http://github.com/"@.len() as int, u.len() as int))
    } else if has_prefix(u, "github.com/"@) {
        Some(u.subrange("github.com/"@.len() as int, u.len() as int))
    } else {
        None
    }
}

/// The entry described by the segments of a GitHub path: `owner/repo`,
/// `owner/repo/tree/branch`, or `owner/repo/tree/branch/sub/path`.
pub open spec fn github_entry(parts: Seq<Seq<char>>) -> Option<
    (Seq<char>, Seq<char>, Seq<Seq<char>>, Seq<char>, Seq<char>, Seq<char>, Seq<char>),
> {
    if parts.len() == 2 {
        Some(
            (
                parts[1],
                parts[0] + "/"@ + parts[1],
                seq!["custom"@],
                parts[0],
                parts[1],
                "main"@,
                ""@,
            ),
        )
    } else if parts.len() == 4 && parts[2] == "tree"@ {
        Some(
            (
                parts[1],
                parts[0] + "/"@ + parts[1] + " @ "@ + parts[3],
                seq!["custom"@],
                parts[0],
                parts[1],
                parts[3],
                ""@,
            ),
        )
    } else if parts.len() == 5 && parts[2] == "tree"@ {
        Some(
            (
                parts[1] + "/"@ + parts[4],
                parts[0] + "/"@ + parts[1] + "/"@ + parts[4] + " @ "@ + parts[3],
                seq!["custom"@],
                parts[0],
                parts[1],
                parts[3],
                parts[4],
            ),
        )
    } else {
        None
    }
}

/// The rest of `s` after the prefix `p`, if `s` starts with it.
fn strip_prefix_chars(s: &[char], p: &str) -> (r: Option<Vec<char>>)
    ensures
        has_prefix(s@, p@) ==> (r matches Some(v) && v@ == s@.subrange(p@.len() as int, s@.len() as int)),
        !has_prefix(s@, p@) ==> r is None,
{
    let pc = chars_of(p);
    if crate::text::starts_with(s, &pc) {
        Some(crate::text::slice_chars(s, pc.len(), s.len()))
    } else {
        None
    }
}

/// The text of `a`, `/` and `b`.
fn slash_join(a: &[char], b: &[char]) -> (r: String)
    ensures
        r@ == a@ + "/"@ + b@,
{
    let mut s = string_of(a);
    proof {
        reveal_strlit("/");
    }
    push_str(&mut s, "/");
    push_chars(&mut s, b);
    s
}

/// Parses a GitHub URL into a `TemplateEntry`.
///
/// Accepts formats:
///  - `https://github.com/owner/repo`
///  - `https://github.com/owner/repo/tree/branch`
///  - `https://github.com/owner/repo/tree/branch/sub/path`
#[verifier::rlimit(40)]
pub fn parse_github_url(url: &str) -> (r: Result<TemplateEntry, String>)
    ensures
        match github_path(cleaned_url(url@)) {
            None => r matches Err(m) && m@ == unsupported_url_text(),
            Some(p) => match github_entry(splitn_on(p, 5, '/')) {
                Some(t) => r matches Ok(e) && entry_text(e) == t,
                None => r matches Err(m) && m@ == "Cannot parse GitHub URL: "@ + cleaned_url(url@),
            },
        },
{
    let raw = chars_of(url);
    let trimmed = trim_white_exec(&raw);
    let u = trim_end_char_exec(&trimmed, '/');
    proof {
        reveal_strlit("https://github.com/");
        reveal_strlit("http://github.com/");
        reveal_strlit("github.com/");
        reveal_strlit("tree");
        reveal_strlit("custom");
        reveal_strlit("main");
        reveal_strlit("");
        reveal_strlit(" @ ");
        reveal_strlit("/");
        reveal_strlit("Cannot parse GitHub URL: ");
    }
    let path = match strip_prefix_chars(&u, "https://github.com/") {
        Some(p) => p,
        None => match strip_prefix_chars(&u, "http://github.com/") {
            Some(p) => p,
            None => match strip_prefix_chars(&u, "github.com/") {
                Some(p) => p,
                None => {
                    return Err(
                        String::from_str(
                            "Only GitHub URLs are supported (https://github.com/owner/repo)",
                        ),
                    );
                },
            },
        },
    };
    let parts = splitn_exec(&path, 5, '/');
    let ghost pv = lines_view(parts@);
    let tree = chars_of("tree");
    let n = parts.len();
    proof {
        assert(pv.len() == n);
        assert(forall|k: int| 0 <= k < n ==> pv[k] == parts@[k]@);
    }
    if n == 2 {
        let owner = &parts[0];
        let repo = &parts[1];
        let custom = tags(&["custom"]);
        assert(string_views(custom@) =~= seq!["custom"@]);
        let e = TemplateEntry {
            name: string_of(repo),
            description: slash_join(owner, repo),
            tags: custom,
            owner: string_of(owner),
            repo: string_of(repo),
            branch: String::from_str("main"),
            path: String::from_str(""),
        };
        return Ok(e);
    }
    if n == 4 && crate::text::chars_eq(&parts[2], &tree) {
        let owner = &parts[0];
        let repo = &parts[1];
        let branch = &parts[3];
        let custom = tags(&["custom"]);
        assert(string_views(custom@) =~= seq!["custom"@]);
        let mut description = slash_join(owner, repo);
        push_str(&mut description, " @ ");
        push_chars(&mut description, branch);
        let e = TemplateEntry {
            name: string_of(repo),
            description,
            tags: custom,
            owner: string_of(owner),
            repo: string_of(repo),
            branch: string_of(branch),
            path: String::from_str(""),
        };
        return Ok(e);
    }
    if n == 5 && crate::text::chars_eq(&parts[2], &tree) {
        let owner = &parts[0];
        let repo = &parts[1];
        let branch = &parts[3];
        let sub = &parts[4];
        let custom = tags(&["custom"]);
        assert(string_views(custom@) =~= seq!["custom"@]);
        let mut description = slash_join(owner, repo);
        push_str(&mut description, "/");
        push_chars(&mut description, sub);
        push_str(&mut description, " @ ");
        push_chars(&mut description, branch);
        let e = TemplateEntry {
            name: slash_join(repo, sub),
            description,
            tags: custom,
            owner: string_of(owner),
            repo: string_of(repo),
            branch: string_of(branch),
            path: string_of(sub),
        };
        return Ok(e);
    }
    let mut m = String::from_str("Cannot parse GitHub URL: ");
    push_chars(&mut m, &u);
    Err(m)
}

/// An entry matches a lower-case search query when the query is empty or
/// occurs in the lower-case name, description or one of the tags.
pub open spec fn matches_query(e: TemplateEntry, q: Seq<char>) -> bool {
    ||| q.len() == 0
    ||| contains_seq(lowercase(e.name@), q)
    ||| contains_seq(lowercase(e.description@), q)
    ||| exists|k: int| 0 <= k < e.tags@.len() && contains_seq(lowercase(#[trigger] e.tags@[k]@), q)
}

/// The entries matching a lower-case query, in order.
pub open spec fn filtered(ts: Seq<TemplateEntry>, q: Seq<char>) -> Seq<TemplateEntry>
    decreases ts.len(),
{
    if ts.len() == 0 {
        Seq::empty()
    } else {
        let rest = filtered(ts.drop_last(), q);
        if matches_query(ts.last(), q) {
            rest.push(ts.last())
        } else {
            rest
        }
    }
}

/// An empty search keeps every entry, in order.
pub proof fn law_empty_search_keeps_all(ts: Seq<TemplateEntry>)
    ensures
        filtered(ts, Seq::empty()) == ts,
    decreases ts.len(),
{
    if ts.len() > 0 {
        law_empty_search_keeps_all(ts.drop_last());
        assert(ts.drop_last().push(ts.last()) =~= ts);
    }
}

/// Whether an entry matches a lower-case search query.
pub fn matches_search(entry: &TemplateEntry, q: &str) -> (r: bool)
    ensures
        r == matches_query(*entry, q@),
{
    let qs = chars_of(q);
    if qs.len() == 0 {
        return true;
    }
    if contains(&chars_of(to_lowercase(entry.name.as_str()).as_str()), &qs) {
        return true;
    }
    if contains(&chars_of(to_lowercase(entry.description.as_str()).as_str()), &qs) {
        return true;
    }
    let mut k: usize = 0;
    while k < entry.tags.len()
        invariant
            k <= entry.tags@.len(),
            qs@ == q@,
            forall|j: int| 0 <= j < k ==> !contains_seq(lowercase(#[trigger] entry.tags@[j]@), q@),
        decreases entry.tags@.len() - k,
    {
        if contains(&chars_of(to_lowercase(entry.tags[k].as_str()).as_str()), &qs) {
            return true;
        }
        k += 1;
    }
    false
}

/// The entries matching a search text (compared in lower case), in order.
pub fn filter_templates(templates: Vec<TemplateEntry>, search: &str) -> (r: Vec<TemplateEntry>)
    ensures
        r@ == filtered(templates@, lowercase(search@)),
{
    let q = to_lowercase(search);
    let mut out: Vec<TemplateEntry> = Vec::new();
    let mut rest = templates;
    let ghost all = rest@;
    let total = rest.len();
    assert(all.len() == total);
    let mut i: usize = 0;
    while rest.len() > 0
        invariant
            i + rest@.len() == all.len(),
            all.len() <= usize::MAX,
            rest@ == all.subrange(i as int, all.len() as int),
            q@ == lowercase(search@),
            out@ == filtered(all.take(i as int), q@),
        decreases rest@.len(),
    {
        let e = rest.remove(0);
        proof {
            assert(all[i as int] == e);
            assert(all.take(i + 1).drop_last() =~= all.take(i as int));
            assert(all.take(i + 1).last() == e);
            assert(rest@ =~= all.subrange(i + 1, all.len() as int));
        }
        if matches_search(&e, q.as_str()) {
            out.push(e);
        }
        i += 1;
    }
    assert(all.take(all.len() as int) =~= all);
    out
}

/// Whether `t` is the selected template: same name and owner.
pub fn is_selected(selected: &Option<TemplateEntry>, t: &TemplateEntry) -> (r: bool)
    ensures
        r == (selected matches Some(s) && s.name@ == t.name@ && s.owner@ == t.owner@),
{
    match selected {
        Some(s) => str_eq(s.name.as_str(), t.name.as_str()) && str_eq(s.owner.as_str(), t.owner.as_str()),
        None => false,
    }
}

/// White space at the end of a text does not survive trimming.
proof fn lemma_trailing_blank_trimmed(u: Seq<char>, c: char)
    requires
        is_white(c),
    ensures
        trim_white(u.push(c)) == trim_white(u),
    decreases u.len(),
{
    if u.len() == 0 {
        assert(u.push(c).drop_first() =~= Seq::<char>::empty());
        assert(trim_start_white(u.push(c)) == trim_start_white(Seq::<char>::empty()));
    } else if is_white(u[0]) {
        lemma_trailing_blank_trimmed(u.drop_first(), c);
        assert(u.push(c).drop_first() =~= u.drop_first().push(c));
    } else {
        assert(trim_start_white(u.push(c)) == u.push(c));
        assert(u.push(c).drop_last() =~= u);
    }
}

/// A GitHub URL reads the same with blanks around it: `parse_github_url`
/// depends on its argument only through `cleaned_url`, which does not
/// change when a blank is put before or after the URL, so the entry or
/// error is the same.
pub proof fn law_github_url_ignores_surrounding_blanks(url: Seq<char>)
    ensures
        cleaned_url(seq![' '] + url) == cleaned_url(url),
        cleaned_url(url.push(' ')) == cleaned_url(url),
{
    assert((seq![' '] + url).drop_first() =~= url);
    lemma_trailing_blank_trimmed(url, ' ');
}

/// A GitHub URL reads the same with a trailing slash: for a URL with no
/// blanks at its ends, adding `/` does not change its `cleaned_url`, so
/// `parse_github_url` gives the same entry or error.
pub proof fn law_github_url_ignores_trailing_slash(url: Seq<char>)
    requires
        url.len() > 0,
        !is_white(url[0]),
        !is_white(url.last()),
    ensures
        cleaned_url(url.push('/')) == cleaned_url(url),
{
    let v = url.push('/');
    assert(trim_start_white(v) == v);
    assert(trim_start_white(url) == url);
    assert(trim_end_white(v) == v);
    assert(trim_end_white(url) == url);
    assert(v.drop_last() =~= url);
}

/// Trailing white space is trimmed within the part after a prefix, when
/// that part starts with a character that is no white space.
proof fn lemma_trim_end_white_after_prefix(pre: Seq<char>, p: Seq<char>)
    requires
        p.len() > 0,
        !is_white(p[0]),
    ensures
        trim_end_white(pre + p) == pre + trim_end_white(p),
        trim_end_white(p).len() > 0,
        trim_end_white(p)[0] == p[0],
    decreases p.len(),
{
    if is_white(p.last()) {
        assert(p.len() >= 2);
        assert((pre + p).drop_last() =~= pre + p.drop_last());
        lemma_trim_end_white_after_prefix(pre, p.drop_last());
    }
}

/// Trailing `c`s are trimmed within the part after a prefix, when that
/// part starts with another character.
proof fn lemma_trim_end_char_after_prefix(pre: Seq<char>, t: Seq<char>, c: char)
    requires
        t.len() > 0,
        t[0] != c,
    ensures
        trim_end_char(pre + t, c) == pre + trim_end_char(t, c),
    decreases t.len(),
{
    if t.last() == c {
        assert(t.len() >= 2);
        assert((pre + t).drop_last() =~= pre + t.drop_last());
        lemma_trim_end_char_after_prefix(pre, t.drop_last(), c);
    }
}

/// Cleaning a URL made of a host prefix and a path cleans the path alone.
proof fn lemma_cleaned_after_host(pre: Seq<char>, p: Seq<char>)
    requires
        pre.len() > 0,
        !is_white(pre[0]),
        p.len() > 0,
        !is_white(p[0]),
        p[0] != '/',
    ensures
        cleaned_url(pre + p) == pre + trim_end_char(trim_end_white(p), '/'),
{
    assert(trim_start_white(pre + p) == pre + p);
    lemma_trim_end_white_after_prefix(pre, p);
    lemma_trim_end_char_after_prefix(pre, trim_end_white(p), '/');
}

/// The scheme of a GitHub URL does not matter: `https://github.com/`,
/// `http://github.com/` and `github.com/` before the same path (one that
/// starts with neither white space nor `/`) give the same `github_path`,
/// so `parse_github_url` gives the same entry for each.
pub proof fn law_github_url_scheme_is_optional(path: Seq<char>)
    requires
        path.len() > 0,
        !is_white(path[0]),
        path[0] != '/',
    ensures
        github_path(cleaned_url("http://github.com/"@ + path)) == github_path(
            cleaned_url("https://github.com/"@ + path),
        ),
        github_path(cleaned_url("github.com/"@ + path)) == github_path(
            cleaned_url("https://github.com/"@ + path),
        ),
{
    reveal_strlit("https://github.com/");
    reveal_strlit("http://github.com/");
    reveal_strlit("github.com/");
    let c = trim_end_char(trim_end_white(path), '/');
    let a = "https://github.com/"@;
    let b = "http://github.com/"@;
    let g = "github.com/"@;
    lemma_cleaned_after_host(a, path);
    lemma_cleaned_after_host(b, path);
    lemma_cleaned_after_host(g, path);
    assert((a + c).subrange(0, a.len() as int) =~= a);
    assert((a + c).subrange(a.len() as int, (a + c).len() as int) =~= c);
    assert((b + c).subrange(0, b.len() as int) =~= b);
    assert((b + c).subrange(b.len() as int, (b + c).len() as int) =~= c);
    assert((g + c).subrange(0, g.len() as int) =~= g);
    assert((g + c).subrange(g.len() as int, (g + c).len() as int) =~= c);
    assert(!has_prefix(b + c, a)) by {
        if has_prefix(b + c, a) {
            assert((b + c)[4] == a[4]);
        }
    }
    assert(!has_prefix(g + c, a)) by {
        if has_prefix(g + c, a) {
            assert((g + c)[0] == a[0]);
        }
    }
    assert(!has_prefix(g + c, b)) by {
        if has_prefix(g + c, b) {
            assert((g + c)[0] == b[0]);
        }
    }
}

/// A trimmed GitHub URL reads the same with a blank before it and a slash
/// and a line break after it: same `cleaned_url`, so `parse_github_url`
/// gives the same entry or error.
pub proof fn law_github_url_ignores_padding(url: Seq<char>)
    requires
        url.len() == 0 || (!is_white(url[0]) && !is_white(url.last())),
    ensures
        cleaned_url(seq![' '] + url.push('/').push('\n')) == cleaned_url(url),
{
    law_github_url_ignores_surrounding_blanks(url.push('/').push('\n'));
    lemma_trailing_blank_trimmed(url.push('/'), '\n');
    if url.len() == 0 {
        let s = url.push('/');
        assert(trim_start_white(s) == s);
        assert(trim_end_white(s) == s);
        assert(s.drop_last() =~= url);
        assert(trim_white(url) == url);
    } else {
        law_github_url_ignores_trailing_slash(url);
    }
    assert(cleaned_url(url.push('/').push('\n')) == trim_end_char(trim_white(url.push('/')), '/'));
}

/// A search keeps every entry whose lower-case name, description or one of
/// whose lower-case tags contains the query.
pub proof fn law_search_looks_at_name_description_and_tags(e: TemplateEntry, q: Seq<char>)
    ensures
        contains_seq(lowercase(e.name@), q) ==> matches_query(e, q),
        contains_seq(lowercase(e.description@), q) ==> matches_query(e, q),
        forall|k: int| 0 <= k < e.tags@.len() && contains_seq(lowercase(#[trigger] e.tags@[k]@), q) ==> matches_query(e, q),
{
}

/// Filtering keeps an entry of the list exactly when it matches: an entry
/// whose lower-case description contains the query is among the results.
pub proof fn law_filter_keeps_matching_entries(ts: Seq<TemplateEntry>, q: Seq<char>, i: int)
    requires
        0 <= i < ts.len(),
    ensures
        contains_seq(lowercase(ts[i].description@), q) ==> filtered(ts, q).contains(ts[i]),
        matches_query(ts[i], q) ==> filtered(ts, q).contains(ts[i]),
    decreases ts.len(),
{
    if matches_query(ts[i], q) {
        let rest = filtered(ts.drop_last(), q);
        if i == ts.len() - 1 {
            assert(filtered(ts, q) == rest.push(ts.last()));
            assert(filtered(ts, q)[rest.len() as int] == ts[i]);
        } else {
            law_filter_keeps_matching_entries(ts.drop_last(), q, i);
            assert(ts.drop_last()[i] == ts[i]);
            let k = choose|k: int| 0 <= k < rest.len() && rest[k] == ts[i];
            if matches_query(ts.last(), q) {
                assert(filtered(ts, q)[k] == ts[i]);
            }
        }
    }
}

} // verus!
