//! Templates made available to the engine for `import` and `include`.
use vstd::prelude::*;

use crate::globs::{build_lenient_glob_set, glob_set_matches, parsing_patterns, set_builds, set_is_match, set_patterns};
use crate::ignore::rooted;
use crate::paths::path_join_exec;
use crate::error::Result;
use crate::renderer::TemplateRenderer;
use crate::text::{lemma_string_views_push, string_views};

verus! {

/// Constructs a glob set matching template files, with each pattern
/// joined onto `template_root` so that it matches the files' full paths.
/// Patterns that do not parse are skipped. `None` when no pattern is given
/// or the set cannot be built (whether it can is named by `set_builds`).
pub fn build_templates_import_globset(template_root: &str, patterns: &Vec<String>) -> (r: Option<
    globset::GlobSet,
>)
    ensures
        patterns@.len() == 0 ==> r is None,
        patterns@.len() > 0 ==> (r is Some <==> set_builds(
            parsing_patterns(rooted(template_root@, string_views(patterns@))),
        )),
        r matches Some(s) ==> set_patterns(s) == parsing_patterns(
            rooted(template_root@, string_views(patterns@)),
        ),
{
    if patterns.len() == 0 {
        return None;
    }
    let ghost target = rooted(template_root@, string_views(patterns@));
    let mut full: Vec<String> = Vec::new();
    let mut i: usize = 0;
    while i < patterns.len()
        invariant
            i <= patterns@.len(),
            target == rooted(template_root@, string_views(patterns@)),
            string_views(full@) == target.take(i as int),
        decreases patterns@.len() - i,
    {
        let joined = path_join_exec(template_root, patterns[i].as_str());
        let ghost before = full@;
        full.push(joined);
        proof {
            lemma_string_views_push(before, joined);
            assert(target.take(i + 1) =~= target.take(i as int).push(target[i as int]));
        }
        i += 1;
    }
    proof {
        assert(target.take(patterns@.len() as int) =~= target);
    }
    build_lenient_glob_set(&full)
}

/// `name` is the name of one of the templates.
pub open spec fn is_template_name(templates: Seq<(String, String)>, name: String) -> bool {
    exists|j: int| 0 <= j < templates.len() && #[trigger] templates[j].0 == name
}

/// The names of the templates among the first `n` whose addition failed,
/// in order.
pub open spec fn refused_upto(templates: Seq<(String, String)>, outcomes: Seq<Result<()>>, n: nat) -> Seq<
    String,
>
    decreases n,
{
    if n == 0 {
        Seq::empty()
    } else {
        let rest = refused_upto(templates, outcomes, (n - 1) as nat);
        if outcomes[n - 1] is Err {
            rest.push(templates[n - 1].0)
        } else {
            rest
        }
    }
}

/// The refused names are template names, no more than were tried.
proof fn lemma_refused_upto(templates: Seq<(String, String)>, outcomes: Seq<Result<()>>, n: nat)
    requires
        n <= templates.len(),
    ensures
        refused_upto(templates, outcomes, n).len() <= n,
        forall|k: int|
            0 <= k < refused_upto(templates, outcomes, n).len() ==> is_template_name(
                templates,
                #[trigger] refused_upto(templates, outcomes, n)[k],
            ),
    decreases n,
{
    if n > 0 {
        lemma_refused_upto(templates, outcomes, (n - 1) as nat);
        let rest = refused_upto(templates, outcomes, (n - 1) as nat);
        let all = refused_upto(templates, outcomes, n);
        assert forall|k: int| 0 <= k < all.len() implies is_template_name(templates, #[trigger] all[k]) by {
            if k < rest.len() {
                assert(all[k] == rest[k]);
            } else {
                assert(templates[n - 1].0 == all[k]);
            }
        }
    }
}

/// The names of the templates whose addition failed, in order, given the
/// outcome of adding each (as far as both lists go).
pub fn refused_names(templates: &Vec<(String, String)>, outcomes: &Vec<Result<()>>) -> (r: Vec<String>)
    ensures
        r@ == refused_upto(
            templates@,
            outcomes@,
            if templates@.len() <= outcomes@.len() {
                templates@.len()
            } else {
                outcomes@.len()
            },
        ),
{
    let n = if templates.len() <= outcomes.len() {
        templates.len()
    } else {
        outcomes.len()
    };
    let mut out: Vec<String> = Vec::new();
    let mut i: usize = 0;
    while i < n
        invariant
            i <= n,
            n <= templates@.len(),
            n <= outcomes@.len(),
            out@ == refused_upto(templates@, outcomes@, i as nat),
        decreases n - i,
    {
        if outcomes[i].is_err() {
            out.push(templates[i].0.clone());
        }
        i += 1;
    }
    out
}

/// The templates among the first `n` whose addition succeeded, as name
/// and text, in order.
pub open spec fn accepted_upto(templates: Seq<(String, String)>, outcomes: Seq<Result<()>>, n: nat) -> Seq<
    (Seq<char>, Seq<char>),
>
    decreases n,
{
    if n == 0 {
        Seq::empty()
    } else {
        let rest = accepted_upto(templates, outcomes, (n - 1) as nat);
        if outcomes[n - 1] is Ok {
            rest.push((templates[n - 1].0@, templates[n - 1].1@))
        } else {
            rest
        }
    }
}

/// Adds the named templates to the engine, in order, each under its name
/// with its text; a template the engine refuses is skipped. Returns the
/// names of the refused ones, in order. Which ones the engine refuses is
/// the engine's decision: for the outcomes it gave, the engine holds the
/// accepted templates after the ones it held, and the refused names are
/// returned.
pub fn add_templates<E: TemplateRenderer>(engine: &mut E, templates: &Vec<(String, String)>) -> (r: Vec<
    String,
>)
    ensures
        r@.len() <= templates@.len(),
        forall|k: int| 0 <= k < r@.len() ==> is_template_name(templates@, #[trigger] r@[k]),
        exists|outcomes: Seq<Result<()>>|
            outcomes.len() == templates@.len() && r@ == refused_upto(templates@, outcomes, templates@.len())
                && final(engine).registered() == old(engine).registered() + #[trigger] accepted_upto(
                templates@,
                outcomes,
                templates@.len(),
            ),
{
    let mut outcomes: Vec<Result<()>> = Vec::new();
    let mut i: usize = 0;
    proof {
        assert(old(engine).registered() + accepted_upto(templates@, outcomes@, 0) =~= old(engine).registered());
    }
    while i < templates.len()
        invariant
            i <= templates@.len(),
            outcomes@.len() == i,
            engine.registered() == old(engine).registered() + accepted_upto(templates@, outcomes@, i as nat),
        decreases templates@.len() - i,
    {
        let (name, content) = &templates[i];
        let ghost before = outcomes@;
        let added = engine.add_template(name.as_str(), content.as_str());
        outcomes.push(added);
        proof {
            assert(outcomes@.take(i as int) =~= before);
            lemma_accepted_prefix(templates@, before, outcomes@, i as nat);
            if added is Ok {
                assert(old(engine).registered() + accepted_upto(templates@, before, i as nat).push(
                    (templates@[i as int].0@, templates@[i as int].1@),
                ) =~= (old(engine).registered() + accepted_upto(templates@, before, i as nat)).push(
                    (templates@[i as int].0@, templates@[i as int].1@),
                ));
            }
        }
        i += 1;
    }
    let r = refused_names(templates, &outcomes);
    proof {
        lemma_refused_upto(templates@, outcomes@, templates@.len());
    }
    r
}

/// The accepted templates among the first `n` depend on the first `n`
/// outcomes only.
proof fn lemma_accepted_prefix(
    templates: Seq<(String, String)>,
    a: Seq<Result<()>>,
    b: Seq<Result<()>>,
    n: nat,
)
    requires
        n <= a.len(),
        n <= b.len(),
        forall|k: int| 0 <= k < n ==> a[k] == b[k],
    ensures
        accepted_upto(templates, a, n) == accepted_upto(templates, b, n),
    decreases n,
{
    if n > 0 {
        lemma_accepted_prefix(templates, a, b, (n - 1) as nat);
    }
}

/// The paths, in order, that a pattern of a set built from `patterns`
/// matches.
pub open spec fn matching_paths(patterns: Seq<Seq<char>>, paths: Seq<Seq<char>>) -> Seq<Seq<char>>
    decreases paths.len(),
{
    if paths.len() == 0 {
        Seq::empty()
    } else {
        let before = matching_paths(patterns, paths.drop_last());
        if glob_set_matches(patterns, paths.last()) {
            before.push(paths.last())
        } else {
            before
        }
    }
}

/// The files, of those found in the template, that are imported for the
/// engine: the ones a pattern of the import set matches, in order.
pub fn imported_paths(import_set: &globset::GlobSet, files: &Vec<String>) -> (r: Vec<String>)
    ensures
        string_views(r@) == matching_paths(set_patterns(*import_set), string_views(files@)),
{
    let ghost fv = string_views(files@);
    let mut out: Vec<String> = Vec::new();
    let mut i: usize = 0;
    while i < files.len()
        invariant
            i <= files@.len(),
            fv == string_views(files@),
            string_views(out@) == matching_paths(set_patterns(*import_set), fv.take(i as int)),
        decreases files@.len() - i,
    {
        proof {
            assert(fv.take(i + 1).drop_last() =~= fv.take(i as int));
            assert(fv.take(i + 1).last() == files@[i as int]@);
        }
        if set_is_match(import_set, files[i].as_str()) {
            let ghost before = out@;
            let f = files[i].clone();
            out.push(f);
            proof {
                lemma_string_views_push(before, f);
            }
        }
        i += 1;
    }
    proof {
        assert(fv.take(files@.len() as int) =~= fv);
    }
    out
}

} // verus!
