use baker::cli::args::{get_log_level_from_verbose, Args, Cli, Commands, GenerateArgs, LevelFilter, SkipConfirm};
use baker::constants::verbosity;

#[test]
fn args_maps_verbose_flags_to_log_filters() {
    assert_eq!(get_log_level_from_verbose(verbosity::OFF), LevelFilter::Error);
    assert_eq!(get_log_level_from_verbose(verbosity::INFO), LevelFilter::Info);
    assert_eq!(get_log_level_from_verbose(verbosity::DEBUG), LevelFilter::Debug);
    assert_eq!(get_log_level_from_verbose(verbosity::TRACE), LevelFilter::Trace);
    assert_eq!(get_log_level_from_verbose(verbosity::TRACE + 1), LevelFilter::Trace);
}

#[test]
fn args_display_skip_confirm_variants() {
    assert_eq!(SkipConfirm::All.to_string(), "all");
    assert_eq!(SkipConfirm::Overwrite.to_string(), "overwrite");
    assert_eq!(SkipConfirm::Hooks.to_string(), "hooks");
}

fn generate_args() -> GenerateArgs {
    GenerateArgs {
        template: "template_dir".to_string(),
        output_dir: "output_dir".to_string(),
        force: true,
        answers: Some("{}".to_string()),
        answers_file: None,
        skip_confirms: vec![SkipConfirm::Hooks],
        non_interactive: true,
        dry_run: false,
        generated_file: None,
        conflict_style: None,
    }
}

#[test]
fn generate_args_become_run_args() {
    let args = Args::from_generate(generate_args());
    assert_eq!(args.template, "template_dir");
    assert_eq!(args.output_dir, "output_dir");
    assert!(args.force);
    assert_eq!(args.verbose, 0);
    assert_eq!(args.answers, Some("{}".to_string()));
    assert_eq!(args.skip_confirms, vec![SkipConfirm::Hooks]);
    assert!(args.non_interactive);
}

fn legacy_cli(template: Option<&str>, output_dir: Option<&str>) -> Cli {
    Cli {
        verbose: 2,
        command: None,
        template: template.map(|s| s.to_string()),
        output_dir: output_dir.map(|s| s.to_string()),
        force: true,
        answers: None,
        answers_file: None,
        skip_confirms: vec![],
        non_interactive: false,
        dry_run: true,
    }
}

#[test]
fn legacy_form_needs_template_and_output() {
    let args = Args::from_legacy(legacy_cli(Some("tpl"), Some("out"))).unwrap();
    assert_eq!(args.template, "tpl");
    assert_eq!(args.output_dir, "out");
    assert_eq!(args.verbose, 2);
    assert!(args.dry_run);
    assert!(Args::from_legacy(legacy_cli(Some("tpl"), None)).is_none());
    assert!(Args::from_legacy(legacy_cli(None, Some("out"))).is_none());
}

#[test]
fn list_command_has_no_arguments() {
    let cli = Cli { command: Some(Commands::List), ..legacy_cli(None, None) };
    assert!(matches!(cli.command, Some(Commands::List)));
}
