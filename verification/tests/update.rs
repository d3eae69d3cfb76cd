use baker::cli::args::{SkipConfirm, UpdateArgs};
use baker::cli::update::{merge_hook_answers, update_done_message, HookConsent, UpdateRunner};
use baker::conflict::ConflictStyle;
use baker::error::Error;
use baker::generated::TemplateSourceInfo;
use baker::json::{JsonMap, JsonValue};

fn default_update_args() -> UpdateArgs {
    UpdateArgs {
        generated_file: None,
        answers: None,
        answers_file: None,
        conflict_style: None,
        dry_run: false,
        skip_confirms: vec![],
        non_interactive: false,
    }
}

#[test]
fn sources_are_identical_checks_git_and_filesystem_variants() {
    let runner = UpdateRunner::new(default_update_args());

    let git_a = TemplateSourceInfo::Git {
        url: "https://example.com/repo.git".to_string(),
        commit: "abc".to_string(),
        tag: None,
    };
    let git_b = TemplateSourceInfo::Git {
        url: "https://example.com/repo.git".to_string(),
        commit: "abc".to_string(),
        tag: Some("v1.0.0".to_string()),
    };
    let git_c = TemplateSourceInfo::Git {
        url: "https://example.com/repo.git".to_string(),
        commit: "def".to_string(),
        tag: None,
    };

    assert!(runner.sources_are_identical(&git_a, &git_b));
    assert!(!runner.sources_are_identical(&git_a, &git_c));

    let fs_a = TemplateSourceInfo::Filesystem { path: "/tmp/template".to_string(), hash: "111".to_string() };
    let fs_b = TemplateSourceInfo::Filesystem { path: "/tmp/template".to_string(), hash: "111".to_string() };
    let fs_c = TemplateSourceInfo::Filesystem { path: "/tmp/template".to_string(), hash: "222".to_string() };

    assert!(runner.sources_are_identical(&fs_a, &fs_b));
    assert!(!runner.sources_are_identical(&fs_a, &fs_c));
    assert!(!runner.sources_are_identical(&git_a, &fs_a));
}

#[test]
fn skip_prompt_flags_work_for_overwrite_and_hooks() {
    let mut args = default_update_args();
    args.skip_confirms = vec![SkipConfirm::Overwrite];
    let runner = UpdateRunner::new(args);
    assert!(runner.should_skip_overwrite_prompts());
    assert!(!runner.should_skip_hook_prompts());

    let mut args = default_update_args();
    args.skip_confirms = vec![SkipConfirm::Hooks];
    let runner = UpdateRunner::new(args);
    assert!(!runner.should_skip_overwrite_prompts());
    assert!(runner.should_skip_hook_prompts());

    let mut args = default_update_args();
    args.skip_confirms = vec![SkipConfirm::All];
    let runner = UpdateRunner::new(args);
    assert!(runner.should_skip_overwrite_prompts());
    assert!(runner.should_skip_hook_prompts());
}

fn object(pairs: &[(&str, JsonValue)]) -> JsonValue {
    let mut m = JsonMap::new();
    for (k, v) in pairs {
        m.insert(k.to_string(), clone_value(v));
    }
    JsonValue::Object(m)
}

fn clone_value(v: &JsonValue) -> JsonValue {
    baker::json::clone_json(v)
}

fn number(text: &str) -> JsonValue {
    JsonValue::Number(text.to_string())
}

#[test]
fn merge_answers_merges_saved_file_and_inline_json() {
    let runner = UpdateRunner::new(default_update_args());
    let merged = runner
        .merge_answers(
            object(&[("saved", number("1"))]),
            Some(Ok(object(&[("from_file", number("2"))]))),
            Some(Ok(object(&[("inline", number("3"))]))),
        )
        .unwrap();
    assert_eq!(merged.get("saved").and_then(|v| match v { JsonValue::Number(n) => Some(n.clone()), _ => None }), Some("1".to_string()));
    assert!(merged.get("from_file").is_some());
    assert!(merged.get("inline").is_some());
}

#[test]
fn merge_answers_errors_when_non_object_override_is_used() {
    let runner = UpdateRunner::new(default_update_args());
    let err = runner
        .merge_answers(object(&[]), None, Some(Ok(JsonValue::Array(vec![]))))
        .unwrap_err();
    assert!(matches!(err, Error::AnswersNotObject));
}

#[test]
fn merge_answers_uses_empty_object_when_saved_answers_are_not_object() {
    let runner = UpdateRunner::new(default_update_args());
    let merged = runner
        .merge_answers(JsonValue::String("old".to_string()), None, Some(Ok(object(&[("k", JsonValue::String("v".to_string()))]))))
        .unwrap();
    match merged {
        JsonValue::Object(m) => {
            assert_eq!(m.len(), 1);
            assert_eq!(m.key_at(0), "k");
        }
        other => panic!("expected an object, got {other:?}"),
    }
}

#[test]
fn merge_answers_later_source_wins() {
    let runner = UpdateRunner::new(default_update_args());
    let merged = runner
        .merge_answers(
            object(&[("k", number("1"))]),
            Some(Ok(object(&[("k", number("2"))]))),
            Some(Ok(object(&[("k", number("3"))]))),
        )
        .unwrap();
    match merged.get("k") {
        Some(JsonValue::Number(n)) => assert_eq!(n, "3"),
        other => panic!("unexpected {other:?}"),
    }
}

#[test]
fn merge_answers_passes_parse_errors_on() {
    let runner = UpdateRunner::new(default_update_args());
    let err = runner
        .merge_answers(object(&[]), Some(Err(Error::JSONParseError("eof".to_string()))), None)
        .unwrap_err();
    assert_eq!(err, Error::JSONParseError("eof".to_string()));
}

#[test]
fn confirm_hooks_respects_missing_hooks_dry_run_and_skip_flag() {
    let runner = UpdateRunner::new(default_update_args());
    assert!(matches!(runner.confirm_hooks("/t/hooks/pre", false, "/t/hooks/post", false, false), HookConsent::No));
    assert!(matches!(runner.confirm_hooks("/t/hooks/pre", true, "/t/hooks/post", false, true), HookConsent::No));
    match runner.confirm_hooks("/t/hooks/pre", true, "/t/hooks/post", true, false) {
        HookConsent::Ask(m) => assert!(m.contains("/t/hooks/pre\n/t/hooks/post\n")),
        other => panic!("expected a question, got {other:?}"),
    }
    let mut args = default_update_args();
    args.skip_confirms = vec![SkipConfirm::Hooks];
    let runner = UpdateRunner::new(args);
    assert!(matches!(runner.confirm_hooks("/t/hooks/pre", false, "/t/hooks/post", true, false), HookConsent::Yes));
}

#[test]
fn hook_output_overrides_answers_only_when_both_are_objects() {
    let answers = object(&[("a", number("1")), ("b", number("2"))]);
    let merged = merge_hook_answers(&answers, Some(Ok(object(&[("b", number("9"))])))).unwrap();
    match merged.get("b") {
        Some(JsonValue::Number(n)) => assert_eq!(n, "9"),
        other => panic!("unexpected {other:?}"),
    }
    assert!(merge_hook_answers(&answers, Some(Ok(JsonValue::Null))).is_none());
    assert!(merge_hook_answers(&answers, None).is_none());
    assert!(merge_hook_answers(&JsonValue::Null, Some(Ok(object(&[])))).is_none());
}

#[test]
fn update_messages() {
    assert_eq!(update_done_message(true), "[DRY RUN] Update complete (no files were modified)");
    assert_eq!(update_done_message(false), "Update complete. Check files for conflict markers (<<<<<<< current).");
    let runner = UpdateRunner::new(default_update_args());
    assert_eq!(runner.working_dir(), ".");
    assert_eq!(runner.generated_file_name(), ".baker-generated.yaml");
}

#[test]
fn conflict_style_defaults_to_git() {
    let mut args = default_update_args();
    assert_eq!(args.effective_conflict_style(), ConflictStyle::Git);
    args.conflict_style = Some(ConflictStyle::Git);
    assert_eq!(args.effective_conflict_style(), ConflictStyle::Git);
}
