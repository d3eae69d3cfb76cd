use baker::cli::args::SkipConfirm;
use baker::cli::context::GenerationContext;
use baker::cli::processor::FileProcessor;
use baker::config::ConfigV1;
use baker::json::{JsonMap, JsonValue};

fn create_test_config() -> ConfigV1 {
    ConfigV1 {
        template_suffix: ".baker.j2".into(),
        loop_separator: "".into(),
        loop_content_separator: "".into(),
        template_globs: Vec::new(),
        import_root: None,
        questions: Vec::new(),
        post_hook_filename: "post".into(),
        pre_hook_filename: "pre".into(),
        post_hook_runner: Vec::new(),
        pre_hook_runner: Vec::new(),
        follow_symlinks: false,
    }
}

fn context(skip_confirms: Vec<SkipConfirm>, dry_run: bool) -> GenerationContext {
    GenerationContext::new(
        "/template".to_string(),
        "/output".to_string(),
        create_test_config(),
        skip_confirms,
        dry_run,
    )
}

fn object(key: &str, value: &str) -> JsonValue {
    let mut m = JsonMap::new();
    m.insert(key.to_string(), JsonValue::String(value.to_string()));
    JsonValue::Object(m)
}

#[test]
fn test_generation_context_new() {
    let ctx = context(vec![], false);
    assert_eq!(ctx.template_root(), "/template");
    assert_eq!(ctx.output_root(), "/output");
    assert!(!ctx.dry_run());
}

#[test]
fn test_generation_context_with_skip_confirms() {
    let ctx = context(vec![SkipConfirm::All, SkipConfirm::Overwrite], false);
    assert!(ctx.skip_confirms().contains(&SkipConfirm::All));
    assert!(ctx.skip_confirms().contains(&SkipConfirm::Overwrite));
}

#[test]
fn test_generation_context_dry_run() {
    let ctx = context(vec![], true);
    assert!(ctx.dry_run());
}

#[test]
fn test_generation_context_config() {
    let ctx = context(vec![], false);
    assert_eq!(ctx.config().template_suffix, ".baker.j2");
}

#[test]
fn test_generation_context_config_mut() {
    let mut ctx = context(vec![], false);
    ctx.config_mut().template_suffix = ".custom.j2".into();
    assert_eq!(ctx.config().template_suffix, ".custom.j2");
}

#[test]
fn test_generation_context_answers_opt_none() {
    let ctx = context(vec![], false);
    assert!(ctx.answers_opt().is_none());
}

#[test]
fn test_generation_context_set_answers() {
    let mut ctx = context(vec![], false);
    ctx.set_answers(object("name", "test"));
    assert!(ctx.answers_opt().is_some());
    assert_eq!(format!("{:?}", ctx.answers()), format!("{:?}", object("name", "test")));
}

#[test]
fn test_generation_context_answers_opt_some() {
    let mut ctx = context(vec![], false);
    ctx.set_answers(object("key", "value"));
    let answers = ctx.answers_opt();
    assert!(answers.is_some());
    assert_eq!(format!("{:?}", answers.unwrap()), format!("{:?}", object("key", "value")));
}

#[test]
fn skips_overwrite_prompt_for_new_files() {
    let ctx = context(Vec::new(), false);
    let processor = FileProcessor::new(&ctx);
    assert!(processor.should_skip_overwrite_prompt(false));
    assert!(!processor.should_skip_overwrite_prompt(true));
}

#[test]
fn skips_overwrite_prompt_when_flagged() {
    let ctx = context(vec![SkipConfirm::Overwrite], false);
    let processor = FileProcessor::new(&ctx);
    assert!(processor.should_skip_overwrite_prompt(true));
}

#[test]
fn confirm_overwrite_short_circuits_when_skip_applies() {
    let ctx = context(Vec::new(), false);
    let processor = FileProcessor::new(&ctx);
    assert!(processor.overwrite_prompt("/output/new-file.txt", false).is_none());
    assert_eq!(
        processor.overwrite_prompt("/output/new-file.txt", true),
        Some("Overwrite /output/new-file.txt?".to_string())
    );
}
