//! Hook scripts: where they live, how they are announced, whether and how
//! they are run. Spawning the process is left to the caller.
use vstd::prelude::*;

use crate::error::Result;
use crate::json::{compact_json, compact_text, Json, JsonMap, JsonValue};
use crate::paths::{path_join, path_join_exec};
use crate::renderer::TemplateRenderer;
use crate::text::{has_prefix, lemma_string_views_push, push_str, string_views};

verus! {

/// The directory of hook scripts inside a template.
pub open spec fn hooks_dir(template_root: Seq<char>) -> Seq<char> {
    path_join(template_root, "hooks"@)
}

/// The path of the hook script `file_name` of a template.
pub open spec fn hook_path(template_root: Seq<char>, file_name: Seq<char>) -> Seq<char> {
    path_join(hooks_dir(template_root), file_name)
}

/// Gets paths to the pre and post generation hook scripts of `template_dir`:
/// `<template_dir>/hooks/<pre>` and `<template_dir>/hooks/<post>`.
pub fn get_hook_files(template_dir: &str, pre_hook_filename: &str, post_hook_filename: &str) -> (r: (
    String,
    String,
))
    ensures
        r.0@ == hook_path(template_dir@, pre_hook_filename@),
        r.1@ == hook_path(template_dir@, post_hook_filename@),
{
    let hooks = path_join_exec(template_dir, "hooks");
    proof {
        reveal_strlit("hooks");
    }
    (path_join_exec(hooks.as_str(), pre_hook_filename), path_join_exec(hooks.as_str(), post_hook_filename))
}

/// The command line that runs a hook: the runner's tokens followed by the
/// script, or the script alone when there is no runner.
pub open spec fn hook_command_line(runner: Seq<Seq<char>>, script: Seq<char>) -> Seq<Seq<char>> {
    runner.push(script)
}

/// The JSON text a hook script reads on its standard input: the template
/// and output directories and the answers (`null` before any), in that
/// order, each written as `serde_json` writes it.
pub open spec fn hook_payload_text(template_dir: Seq<char>, output_dir: Seq<char>, answers: Option<Json>) -> Seq<char> {
    "{\"template_dir\":"@ + compact_text(Json::Str(template_dir)) + ",\"output_dir\":"@ + compact_text(
        Json::Str(output_dir),
    ) + ",\"answers\":"@ + match answers {
        Some(a) => compact_text(a),
        None => "null"@,
    } + "}"@
}

/// The context handed to a hook script on its standard input, as JSON.
pub fn hook_payload(template_dir: &str, output_dir: &str, answers: Option<&JsonValue>) -> (r: String)
    ensures
        r@ == hook_payload_text(
            template_dir@,
            output_dir@,
            match answers {
                Some(a) => Some(a@),
                None => None,
            },
        ),
{
    let mut out = String::from_str("{\"template_dir\":");
    push_str(&mut out, compact_json(&JsonValue::String(String::from_str(template_dir))).as_str());
    push_str(&mut out, ",\"output_dir\":");
    push_str(&mut out, compact_json(&JsonValue::String(String::from_str(output_dir))).as_str());
    push_str(&mut out, ",\"answers\":");
    match answers {
        Some(a) => push_str(&mut out, compact_json(a).as_str()),
        None => push_str(&mut out, "null"),
    }
    push_str(&mut out, "}");
    proof {
        reveal_strlit("{\"template_dir\":");
        reveal_strlit(",\"output_dir\":");
        reveal_strlit(",\"answers\":");
        reveal_strlit("null");
        reveal_strlit("}");
    }
    out
}

/// The program and arguments that run the hook `script` with `runner`.
pub fn hook_command(runner: &[String], script: &str) -> (r: Vec<String>)
    ensures
        string_views(r@) == hook_command_line(string_views(runner@), script@),
{
    let mut out: Vec<String> = Vec::new();
    let mut i: usize = 0;
    while i < runner.len()
        invariant
            i <= runner@.len(),
            string_views(out@) == string_views(runner@.subrange(0, i as int)),
        decreases runner@.len() - i,
    {
        let ghost before = out@;
        out.push(runner[i].clone());
        proof {
            assert(runner@.subrange(0, i + 1) == runner@.subrange(0, i as int).push(runner@[i as int]));
            lemma_string_views_push(before, runner@[i as int]);
            lemma_string_views_push(runner@.subrange(0, i as int), runner@[i as int]);
        }
        i += 1;
    }
    proof {
        assert(runner@.subrange(0, runner@.len() as int) == runner@);
    }
    let ghost before = out@;
    let last = String::from_str(script);
    out.push(last);
    proof {
        lemma_string_views_push(before, last);
    }
    out
}

/// The first line of the warning shown before hooks run.
pub open spec fn hook_warning_head() -> Seq<char> {
    "WARNING: This template contains the following hooks that will execute commands on your system:\n"@
}

/// The question that ends the warning shown before hooks run.
pub open spec fn hook_warning_question() -> Seq<char> {
    "Do you want to run these hooks?"@
}

/// A line naming a hook script, or nothing for a missing one.
pub open spec fn hook_line(script: Option<Seq<char>>) -> Seq<char> {
    match script {
        Some(s) => s + "\n"@,
        None => Seq::empty(),
    }
}

/// The warning that asks for permission to run the hook scripts that exist.
pub open spec fn hook_warning(pre: Option<Seq<char>>, post: Option<Seq<char>>) -> Seq<char> {
    hook_warning_head() + hook_line(pre) + hook_line(post) + hook_warning_question()
}

/// Builds the warning listing the hook scripts that exist (`pre`, `post`),
/// one per line.
pub fn hook_warning_message(pre: Option<&str>, post: Option<&str>) -> (r: String)
    ensures
        r@ == hook_warning(
            match pre {
                Some(s) => Some(s@),
                None => None,
            },
            match post {
                Some(s) => Some(s@),
                None => None,
            },
        ),
{
    let mut out = String::from_str(
        "WARNING: This template contains the following hooks that will execute commands on your system:\n",
    );
    proof {
        reveal_strlit(
            "WARNING: This template contains the following hooks that will execute commands on your system:\n",
        );
        reveal_strlit("\n");
        reveal_strlit("Do you want to run these hooks?");
    }
    if let Some(p) = pre {
        push_str(&mut out, p);
        push_str(&mut out, "\n");
    }
    if let Some(p) = post {
        push_str(&mut out, p);
        push_str(&mut out, "\n");
    }
    push_str(&mut out, "Do you want to run these hooks?");
    out
}

/// What to do about one hook script.
#[derive(Debug, Clone, Copy, PartialEq, Eq, Structural)]
pub enum HookAction {
    /// The script does not exist: nothing to run.
    Missing,
    /// A dry run: the script is only reported.
    Report,
    /// Running hooks was declined.
    Declined,
    /// Run the script.
    Run,
}

/// The action for a hook script: nothing when it is missing, a report in a
/// dry run, else run it if hooks were accepted.
pub open spec fn hook_action_spec(exists: bool, dry_run: bool, execute_hooks: bool) -> HookAction {
    if !exists {
        HookAction::Missing
    } else if dry_run {
        HookAction::Report
    } else if execute_hooks {
        HookAction::Run
    } else {
        HookAction::Declined
    }
}

/// Decides what to do about a hook script.
pub fn hook_action(exists: bool, dry_run: bool, execute_hooks: bool) -> (r: HookAction)
    ensures
        r == hook_action_spec(exists, dry_run, execute_hooks),
{
    if !exists {
        HookAction::Missing
    } else if dry_run {
        HookAction::Report
    } else if execute_hooks {
        HookAction::Run
    } else {
        HookAction::Declined
    }
}

/// A rendered hook file name, or the name as written when rendering failed.
pub fn rendered_or_raw(raw: &str, rendered: Result<String>) -> (r: String)
    ensures
        match rendered {
            Ok(s) => r@ == s@,
            Err(_) => r@ == raw@,
        },
{
    match rendered {
        Ok(s) => s,
        Err(_) => String::from_str(raw),
    }
}

/// The rendered runner tokens, or the first rendering error.
pub open spec fn all_rendered(results: Seq<Result<String>>) -> bool {
    forall|i: int| 0 <= i < results.len() ==> (#[trigger] results[i]) is Ok
}

/// Collects rendered tokens: all of them when every rendering succeeded,
/// else the first error.
pub fn collect_rendered(results: Vec<Result<String>>) -> (r: Result<Vec<String>>)
    ensures
        all_rendered(results@) <==> r is Ok,
        r matches Ok(v) ==> v@.len() == results@.len() && forall|i: int|
            0 <= i < v@.len() ==> (results@[i] matches Ok(s) && (#[trigger] v@[i])@ == s@),
        r matches Err(e) ==> exists|k: int|
            0 <= k < results@.len() && results@[k] == Err::<String, _>(e) && forall|j: int|
                0 <= j < k ==> (#[trigger] results@[j]) is Ok,
{
    let ghost orig = results@;
    let mut out: Vec<String> = Vec::new();
    let mut rest = results;
    while rest.len() > 0
        invariant
            orig == results@,
            out@.len() + rest@.len() == orig.len(),
            rest@ == orig.subrange(out@.len() as int, orig.len() as int),
            forall|i: int| 0 <= i < out@.len() ==> (#[trigger] orig[i]) is Ok,
            forall|i: int|
                0 <= i < out@.len() ==> (orig[i] matches Ok(s) && (#[trigger] out@[i])@ == s@),
        decreases rest@.len(),
    {
        let k = out.len();
        let item = rest.remove(0);
        assert(item == orig[k as int]);
        match item {
            Ok(s) => {
                out.push(s);
            },
            Err(e) => {
                assert(forall|j: int| 0 <= j < k ==> (#[trigger] orig[j]) is Ok);
                assert(orig[k as int] == Err::<String, crate::error::Error>(e));
                assert(!all_rendered(orig));
                return Err(e);
            },
        }
    }
    Ok(out)
}

/// The context hook-runner tokens are rendered in: the answers, or an
/// empty object when there are none yet.
pub open spec fn runner_context(answers: Option<Json>) -> Json {
    match answers {
        Some(a) => a,
        None => Json::Object(Seq::empty()),
    }
}

/// `r` collects `results`: every rendered text, in order, when all of
/// them rendered; else the first error.
pub open spec fn collected(results: Seq<Result<String>>, r: Result<Vec<String>>) -> bool {
    &&& all_rendered(results) <==> r is Ok
    &&& r matches Ok(v) ==> v@.len() == results.len() && forall|i: int|
        0 <= i < v@.len() ==> (results[i] matches Ok(s) && (#[trigger] v@[i])@ == s@)
    &&& r matches Err(e) ==> exists|k: int|
        0 <= k < results.len() && results[k] == Err::<String, _>(e) && forall|j: int|
            0 <= j < k ==> (#[trigger] results[j]) is Ok
}

/// What `engine` makes of each hook-runner token in `context`.
pub open spec fn token_renderings<E: TemplateRenderer>(engine: E, tokens: Seq<String>, context: Json) -> Seq<
    Result<String>,
> {
    Seq::new(tokens.len(), |i: int| engine.rendered(tokens[i]@, context, Some("hook_runner"@)))
}

/// Renders each token of a hook runner against the answers (an empty
/// object when there are none yet), stopping at the first error: the
/// rendered tokens when every one rendered, else that first error.
pub fn render_hook_runner<E: TemplateRenderer>(
    engine: &E,
    runner_tokens: &[String],
    answers: Option<&JsonValue>,
) -> (r: Result<Vec<String>>)
    ensures
        collected(
            token_renderings(
                *engine,
                runner_tokens@,
                runner_context(
                    match answers {
                        Some(a) => Some(a@),
                        None => None,
                    },
                ),
            ),
            r,
        ),
{
    let empty = JsonValue::Object(JsonMap::new());
    let context = match answers {
        Some(a) => a,
        None => &empty,
    };
    let ghost ctx = runner_context(
        match answers {
            Some(a) => Some(a@),
            None => None,
        },
    );
    assert(context@ == ctx);
    let ghost all = token_renderings(*engine, runner_tokens@, ctx);
    let mut results: Vec<Result<String>> = Vec::new();
    let mut i: usize = 0;
    while i < runner_tokens.len()
        invariant_except_break
            i <= runner_tokens@.len(),
            results@ == all.take(i as int),
            all_rendered(results@),
        invariant
            context@ == ctx,
            all == token_renderings(*engine, runner_tokens@, ctx),
        ensures
            results@.len() <= runner_tokens@.len(),
            results@ == all.take(results@.len() as int),
            results@.len() < runner_tokens@.len() ==> !all_rendered(results@),
        decreases runner_tokens@.len() - i,
    {
        let rendered = engine.render(runner_tokens[i].as_str(), context, Some("hook_runner"));
        let failed = rendered.is_err();
        results.push(rendered);
        proof {
            assert(results@ =~= all.take(i + 1));
        }
        if failed {
            assert(results@[i as int] is Err);
            break;
        }
        i += 1;
    }
    let r = collect_rendered(results);
    proof {
        let n = results@.len() as int;
        if n < all.len() {
            assert(!all_rendered(all)) by {
                let k = choose|k: int| 0 <= k < n && !(results@[k] is Ok);
                assert(all[k] == results@[k]);
            }
        } else {
            assert(results@ =~= all);
        }
        if r is Err {
            let e = r->Err_0;
            let k = choose|k: int|
                0 <= k < results@.len() && results@[k] == Err::<String, _>(e) && forall|j: int|
                    0 <= j < k ==> (#[trigger] results@[j]) is Ok;
            assert(all[k] == results@[k]);
            assert forall|j: int| 0 <= j < k implies (#[trigger] all[j]) is Ok by {
                assert(all[j] == results@[j]);
            }
        }
        assert(collected(all, r));
    }
    r
}

/// A hook's payload names the template directory first, then the output
/// directory, then the answers (`null` when there are none), as an object.
pub proof fn law_hook_payload_fields(template_dir: Seq<char>, output_dir: Seq<char>, answers: Option<Json>)
    ensures
        ({
            let t = hook_payload_text(template_dir, output_dir, answers);
            let first = "{\"template_dir\":"@ + compact_text(Json::Str(template_dir));
            let second = ",\"output_dir\":"@ + compact_text(Json::Str(output_dir));
            let third = ",\"answers\":"@;
            &&& has_prefix(t, first)
            &&& t.subrange(first.len() as int, (first.len() + second.len()) as int) == second
            &&& t.subrange(
                (first.len() + second.len()) as int,
                (first.len() + second.len() + third.len()) as int,
            ) == third
            &&& answers is None ==> t.subrange(
                (first.len() + second.len() + third.len()) as int,
                t.len() as int,
            ) == "null}"@
            &&& t.last() == '}'
        }),
{
    let t = hook_payload_text(template_dir, output_dir, answers);
    let first = "{\"template_dir\":"@ + compact_text(Json::Str(template_dir));
    let second = ",\"output_dir\":"@ + compact_text(Json::Str(output_dir));
    let third = ",\"answers\":"@;
    let value = match answers {
        Some(a) => compact_text(a),
        None => "null"@,
    };
    reveal_strlit("}");
    reveal_strlit("null");
    reveal_strlit("null}");
    assert(t =~= first + second + third + value + "}"@);
    assert(t.subrange(0, first.len() as int) =~= first);
    assert(t.subrange(first.len() as int, (first.len() + second.len()) as int) =~= second);
    assert(t.subrange((first.len() + second.len()) as int, (first.len() + second.len() + third.len()) as int)
        =~= third);
    if answers is None {
        assert(t.subrange((first.len() + second.len() + third.len()) as int, t.len() as int) =~= "null}"@);
    }
}

} // verus!
