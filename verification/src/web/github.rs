//! What the front end asks GitHub for, and what it keeps of the answers.
//!
//! The requests themselves are made by the caller; these functions name
//! the URLs to fetch and decide what the replies amount to.
use vstd::prelude::*;

use crate::text::{chars_of, has_prefix, push_str, slice_chars, starts_with, str_eq, string_views};
use crate::web::models::{raw_base_text, raw_path_part, TemplateEntry};

verus! {

/// The configuration file names tried, in order.
pub open spec fn config_names() -> Seq<Seq<char>> {
    seq!["baker.yaml"@, "baker.yml"@, "baker.json"@]
}

/// The raw URL of a file of an entry.
pub open spec fn file_url_text(e: TemplateEntry, rel: Seq<char>) -> Seq<char> {
    raw_base_text(e.owner@, e.repo@, e.branch@, e.path@) + rel
}

/// The URL of a file of an entry, given its path from the template root.
pub fn file_url(entry: &TemplateEntry, rel: &str) -> (r: String)
    ensures
        r@ == file_url_text(*entry, rel@),
{
    let mut s = entry.raw_base_url();
    push_str(&mut s, rel);
    s
}

/// The URLs tried for an entry's configuration, in order: `baker.yaml`,
/// then `baker.yml`, then `baker.json`.
pub fn config_urls(entry: &TemplateEntry) -> (r: Vec<String>)
    ensures
        r@.len() == config_names().len(),
        forall|i: int| 0 <= i < r@.len() ==> #[trigger] r@[i]@ == file_url_text(*entry, config_names()[i]),
{
    proof {
        reveal_strlit("baker.yaml");
        reveal_strlit("baker.yml");
        reveal_strlit("baker.json");
    }
    let mut r: Vec<String> = Vec::new();
    r.push(file_url(entry, "baker.yaml"));
    r.push(file_url(entry, "baker.yml"));
    r.push(file_url(entry, "baker.json"));
    r
}

/// The message when no configuration file could be fetched.
pub open spec fn missing_config_text(e: TemplateEntry) -> Seq<char> {
    "No baker.yaml found in "@ + e.owner@ + "/"@ + e.repo@ + ":"@ + if e.path@.len() == 0 {
        "(root)"@
    } else {
        e.path@
    }
}

/// The configuration text of an entry, from the outcomes of fetching
/// `config_urls` in order: the first text that arrived, or the message that
/// none did.
pub fn first_config(entry: &TemplateEntry, outcomes: &Vec<Result<String, String>>) -> (r: Result<
    String,
    String,
>)
    ensures
        match r {
            Ok(t) => exists|i: int|
                0 <= i < outcomes@.len() && (#[trigger] outcomes@[i] matches Ok(u) && u == t) && forall|
                    j: int,
                | 0 <= j < i ==> outcomes@[j] is Err,
            Err(m) => (forall|j: int| 0 <= j < outcomes@.len() ==> #[trigger] outcomes@[j] is Err) && m@
                == missing_config_text(*entry),
        },
{
    let mut i: usize = 0;
    while i < outcomes.len()
        invariant
            i <= outcomes@.len(),
            forall|j: int| 0 <= j < i ==> #[trigger] outcomes@[j] is Err,
        decreases outcomes@.len() - i,
    {
        match &outcomes[i] {
            Ok(t) => {
                let found = t.clone();
                assert(outcomes@[i as int] matches Ok(u) && u == found);
                return Ok(found);
            },
            Err(_) => {},
        }
        i += 1;
    }
    proof {
        reveal_strlit("No baker.yaml found in ");
        reveal_strlit("/");
        reveal_strlit(":");
        reveal_strlit("(root)");
    }
    let mut m = String::from_str("No baker.yaml found in ");
    push_str(&mut m, entry.owner.as_str());
    push_str(&mut m, "/");
    push_str(&mut m, entry.repo.as_str());
    push_str(&mut m, ":");
    if entry.path.as_str().is_empty() {
        push_str(&mut m, "(root)");
    } else {
        push_str(&mut m, entry.path.as_str());
    }
    Err(m)
}

/// The prefix that the paths of an entry's files carry in the repository
/// tree: nothing for the repository root, else the sub-path with one
/// trailing slash.
pub fn template_prefix(entry: &TemplateEntry) -> (r: String)
    ensures
        r@ == raw_path_part(entry.path@),
{
    let p = chars_of(entry.path.as_str());
    let mut s = String::new();
    if p.len() > 0 {
        let trimmed = crate::text::trim_char_exec(&p, '/');
        crate::text::push_chars(&mut s, &trimmed);
        crate::text::push_char(&mut s, '/');
        proof {
            reveal_strlit("/");
            assert("/"@ =~= seq!['/']);
            assert(s@ =~= raw_path_part(entry.path@));
        }
    } else {
        assert(s@ =~= raw_path_part(entry.path@));
    }
    s
}

/// The tree listing as (path, kind) pairs of texts.
pub open spec fn tree_view(tree: Seq<(String, String)>) -> Seq<(Seq<char>, Seq<char>)> {
    tree.map_values(|e: (String, String)| (e.0@, e.1@))
}

/// A listed item is one of the template's files: a blob under the prefix.
pub open spec fn is_template_file(item: (Seq<char>, Seq<char>), prefix: Seq<char>) -> bool {
    item.1 == "blob"@ && has_prefix(item.0, prefix)
}

/// The paths, from the template root, of the template's files in a tree
/// listing, in the listing's order.
pub open spec fn template_paths(tree: Seq<(Seq<char>, Seq<char>)>, prefix: Seq<char>) -> Seq<Seq<char>>
    decreases tree.len(),
{
    if tree.len() == 0 {
        Seq::empty()
    } else {
        let rest = template_paths(tree.drop_last(), prefix);
        let last = tree.last();
        if is_template_file(last, prefix) {
            rest.push(last.0.subrange(prefix.len() as int, last.0.len() as int))
        } else {
            rest
        }
    }
}

/// The files of a template in a repository tree listing of (path, kind)
/// items: the blobs under `prefix`, each with `prefix` taken off.
pub fn template_file_paths(tree: &Vec<(String, String)>, prefix: &str) -> (r: Vec<String>)
    ensures
        string_views(r@) == template_paths(tree_view(tree@), prefix@),
{
    proof {
        reveal_strlit("blob");
    }
    let pre = chars_of(prefix);
    let mut out: Vec<String> = Vec::new();
    let mut i: usize = 0;
    while i < tree.len()
        invariant
            i <= tree@.len(),
            pre@ == prefix@,
            string_views(out@) == template_paths(tree_view(tree@).take(i as int), prefix@),
        decreases tree@.len() - i,
    {
        let ghost before = out@;
        let path = &tree[i].0;
        let kind = &tree[i].1;
        let ghost tv = tree_view(tree@);
        proof {
            assert(tv.take(i + 1).drop_last() =~= tv.take(i as int));
            assert(tv.take(i + 1).last() == tv[i as int]);
        }
        let cs = chars_of(path.as_str());
        if str_eq(kind.as_str(), "blob") && starts_with(&cs, &pre) {
            let rel = slice_chars(&cs, pre.len(), cs.len());
            let s = crate::text::string_of(&rel);
            out.push(s);
            proof {
                crate::text::lemma_string_views_push(before, s);
            }
        }
        i += 1;
    }
    proof {
        assert(tree_view(tree@).take(tree@.len() as int) =~= tree_view(tree@));
    }
    out
}

/// The (path, content) pairs of the files that arrived, in order.
pub open spec fn ok_files(fetched: Seq<(String, Result<String, String>)>) -> Seq<(String, String)>
    decreases fetched.len(),
{
    if fetched.len() == 0 {
        Seq::empty()
    } else {
        let rest = ok_files(fetched.drop_last());
        match fetched.last().1 {
            Ok(c) => rest.push((fetched.last().0, c)),
            Err(_) => rest,
        }
    }
}

/// The files that arrived, as (path, content) pairs in order: a file whose
/// fetch failed (a binary file, say) is left out.
pub fn fetched_files(fetched: Vec<(String, Result<String, String>)>) -> (r: Vec<(String, String)>)
    ensures
        r@ == ok_files(fetched@),
{
    let mut out: Vec<(String, String)> = Vec::new();
    let mut rest = fetched;
    let ghost all = rest@;
    let total = rest.len();
    assert(all.len() == total);
    let mut i: usize = 0;
    while rest.len() > 0
        invariant
            i + rest@.len() == all.len(),
            all.len() <= usize::MAX,
            rest@ == all.subrange(i as int, all.len() as int),
            out@ == ok_files(all.take(i as int)),
        decreases rest@.len(),
    {
        let (path, outcome) = rest.remove(0);
        proof {
            assert(all[i as int] == (path, outcome));
            assert(all.take(i + 1).drop_last() =~= all.take(i as int));
            assert(all.take(i + 1).last() == all[i as int]);
            assert(rest@ =~= all.subrange(i + 1, all.len() as int));
        }
        match outcome {
            Ok(content) => {
                out.push((path, content));
            },
            Err(_) => {},
        }
        i += 1;
    }
    assert(all.take(all.len() as int) =~= all);
    out
}

} // verus!
