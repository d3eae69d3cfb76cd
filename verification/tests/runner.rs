use baker::cli::args::{Args, SkipConfirm};
use baker::cli::hooks::{get_hook_files, hook_action, hook_command, render_hook_runner, HookAction};
use baker::cli::runner::{completion_message, log_dry_run_action, Runner};
use baker::error::{Error, Result};
use baker::json::{Json, JsonMap, JsonValue};
use baker::prompt::interface::{ConfirmationConfig, ConfirmationPrompter};
use baker::renderer::{TemplateRenderer, Templates, Text};

fn base_args() -> Args {
    Args {
        template: "template".to_string(),
        output_dir: "output".to_string(),
        force: false,
        verbose: 0,
        answers: None,
        answers_file: None,
        skip_confirms: Vec::new(),
        non_interactive: false,
        dry_run: false,
    }
}

#[test]
fn skip_flags_respect_overwrite_and_hook_prompts() {
    let mut args = base_args();
    args.skip_confirms = vec![SkipConfirm::Overwrite];
    let runner = Runner::new(args);
    assert!(runner.should_skip_overwrite_prompts());
    assert!(!runner.should_skip_hook_prompts());

    let mut args = base_args();
    args.skip_confirms = vec![SkipConfirm::Hooks];
    let runner = Runner::new(args);
    assert!(!runner.should_skip_overwrite_prompts());
    assert!(runner.should_skip_hook_prompts());
}

#[test]
fn get_output_dir_errors_when_exists_without_force() {
    let runner = Runner::new(base_args());
    match runner.get_output_dir("/tmp/out", true, false, false) {
        Err(Error::OutputDirectoryExistsError { output_dir }) => assert_eq!(output_dir, "/tmp/out"),
        other => panic!("expected OutputDirectoryExistsError, got {other:?}"),
    }
}

#[test]
fn get_output_dir_allows_existing_when_forced_or_dry_run() {
    let runner = Runner::new(base_args());
    assert_eq!(runner.get_output_dir("/tmp/out", true, true, false).unwrap(), "/tmp/out");
    assert_eq!(runner.get_output_dir("/tmp/out", true, false, true).unwrap(), "/tmp/out");
    assert_eq!(runner.get_output_dir("/tmp/new", false, false, false).unwrap(), "/tmp/new");
}

#[test]
fn get_path_if_exists_returns_path_line() {
    let runner = Runner::new(base_args());
    assert_eq!(runner.get_path_if_exists("/t/file.txt", true), "/t/file.txt\n");
    assert!(runner.get_path_if_exists("/t/missing", false).is_empty());
}

#[test]
fn hook_confirmation_lists_existing_scripts() {
    let runner = Runner::new(base_args());
    assert!(runner.hook_confirmation("/t/hooks/pre", false, "/t/hooks/post", false).is_none());
    let message = runner.hook_confirmation("/t/hooks/pre", true, "/t/hooks/post", false).unwrap();
    assert_eq!(
        message,
        "WARNING: This template contains the following hooks that will execute commands on your system:\n/t/hooks/pre\nDo you want to run these hooks?"
    );
}

#[test]
fn hook_files_live_in_hooks_directory() {
    let (pre, post) = get_hook_files("/tpl", "pre", "post");
    assert_eq!(pre, "/tpl/hooks/pre");
    assert_eq!(post, "/tpl/hooks/post");
    let (pre, _) = get_hook_files("/tpl/", "pre.sh", "post");
    assert_eq!(pre, "/tpl/hooks/pre.sh");
}

#[test]
fn hook_command_puts_script_after_runner() {
    let runner = vec!["python3".to_string(), "-u".to_string()];
    assert_eq!(hook_command(&runner, "/t/hooks/pre"), vec!["python3", "-u", "/t/hooks/pre"]);
    assert_eq!(hook_command(&[], "/t/hooks/pre"), vec!["/t/hooks/pre"]);
}

#[test]
fn hook_actions_follow_existence_dry_run_and_consent() {
    assert_eq!(hook_action(false, true, true), HookAction::Missing);
    assert_eq!(hook_action(true, true, true), HookAction::Report);
    assert_eq!(hook_action(true, false, true), HookAction::Run);
    assert_eq!(hook_action(true, false, false), HookAction::Declined);
}

#[test]
fn completion_messages() {
    assert_eq!(
        completion_message(false, "/out"),
        "Template generation completed successfully in /out."
    );
    assert_eq!(
        completion_message(true, "/out"),
        "[DRY RUN] Template processing completed. No files were actually created in /out."
    );
    assert_eq!(log_dry_run_action("Would use output directory", "/out"), "[DRY RUN] Would use output directory: /out");
}

struct Upper;

impl TemplateRenderer for Upper {
    fn registered(&self) -> Templates {
        unreachable!("specification functions are not run")
    }

    fn rendered(&self, _template: Text, _context: Json, _name: Option<Text>) -> Result<String> {
        unreachable!("specification functions are not run")
    }

    fn evaluated(&self, _expression: Text, _context: Json) -> Result<bool> {
        unreachable!("specification functions are not run")
    }

    fn render(&self, template: &str, _context: &JsonValue, _name: Option<&str>) -> Result<String> {
        if template.contains("{{") {
            Err(Error::MinijinjaError("unsupported".to_string()))
        } else {
            Ok(template.to_uppercase())
        }
    }
    fn execute_expression(&self, expression: &str, _context: &JsonValue) -> Result<bool> {
        Ok(expression == "true")
    }
    fn add_template(&mut self, _name: &str, _content: &str) -> Result<()> {
        Ok(())
    }
}

#[test]
fn render_hook_runner_renders_every_token() {
    let tokens = vec!["python".to_string(), "-u".to_string()];
    let answers = JsonValue::Object(JsonMap::new());
    assert_eq!(render_hook_runner(&Upper, &tokens, Some(&answers)).unwrap(), vec!["PYTHON", "-U"]);
    let bad = vec!["ok".to_string(), "{{ x }}".to_string()];
    assert!(render_hook_runner(&Upper, &bad, None).is_err());
}

/// Refuses templates whose content does not parse (here: holds "{%").
struct Picky {
    added: Vec<String>,
}

impl TemplateRenderer for Picky {
    fn registered(&self) -> Templates {
        unreachable!("specification functions are not run")
    }

    fn rendered(&self, _template: Text, _context: Json, _name: Option<Text>) -> Result<String> {
        unreachable!("specification functions are not run")
    }

    fn evaluated(&self, _expression: Text, _context: Json) -> Result<bool> {
        unreachable!("specification functions are not run")
    }

    fn render(&self, template: &str, _context: &JsonValue, _name: Option<&str>) -> Result<String> {
        Ok(template.to_string())
    }
    fn execute_expression(&self, _expression: &str, _context: &JsonValue) -> Result<bool> {
        Ok(true)
    }
    fn add_template(&mut self, name: &str, content: &str) -> Result<()> {
        if content.contains("{%") {
            return Err(Error::MinijinjaError("syntax".to_string()));
        }
        self.added.push(name.to_string());
        Ok(())
    }
}

#[test]
fn add_templates_reports_the_refused_names_in_order() {
    let mut engine = Picky { added: Vec::new() };
    let templates = vec![
        ("macros.j2".to_string(), "{{ x }}".to_string()),
        ("broken.j2".to_string(), "{% if %}".to_string()),
        ("base.j2".to_string(), "base".to_string()),
        ("worse.j2".to_string(), "{% for %}".to_string()),
    ];
    let refused = baker::import::add_templates(&mut engine, &templates);
    assert_eq!(refused, vec!["broken.j2", "worse.j2"]);
    assert_eq!(engine.added, vec!["macros.j2", "base.j2"]);
}

#[test]
fn get_output_dir_allows_existing_when_dry_run() {
    let temp_dir = tempfile::TempDir::new().unwrap();
    let path = temp_dir.path().to_str().unwrap().to_string();
    let runner = Runner::new(base_args());
    let result = runner.get_output_dir(&path, temp_dir.path().exists(), false, true).unwrap();
    assert_eq!(result, path);
}

#[test]
fn refused_names_follow_the_outcomes() {
    let templates = vec![
        ("a.j2".to_string(), "a".to_string()),
        ("b.j2".to_string(), "b".to_string()),
        ("c.j2".to_string(), "c".to_string()),
    ];
    let outcomes = vec![Ok(()), Err(Error::MinijinjaError("bad".to_string())), Err(Error::MinijinjaError("bad".to_string()))];
    assert_eq!(baker::import::refused_names(&templates, &outcomes), vec!["b.j2", "c.j2"]);
    assert!(baker::import::refused_names(&templates, &vec![Ok(()), Ok(()), Ok(())]).is_empty());
}

/// A prompter that must not be asked.
struct NeverAsked;

impl ConfirmationPrompter for NeverAsked {
    fn may_reply(&self, _config: ConfirmationConfig, _reply: Result<bool>) -> bool {
        unreachable!("specification functions are not run")
    }

    fn prompt_confirmation(&self, _config: &ConfirmationConfig) -> Result<bool> {
        panic!("no question is expected")
    }
}

#[test]
fn hooks_are_not_run_when_no_script_exists() {
    let runner = Runner::new(base_args());
    let r = runner.confirm_hook_execution(&NeverAsked, "/no/such/template/dir", false, "pre_gen_project", "post_gen_project");
    assert_eq!(r, Ok(false));
    let r = runner.confirm_hook_execution(&NeverAsked, "/no/such/template/dir", true, "pre_gen_project", "post_gen_project");
    assert_eq!(r, Ok(false));
}
