use baker::config::question::Question;
use baker::config::types::{Type, Validation};
use baker::error::{Error, Result};
use baker::json::{JsonMap, JsonValue};
use baker::mcp::handler::{BakerHandler, ToolName};
use baker::mcp::tools::{extract_questions, question_info, GenerateTool, ListTemplatesTool, ListingFailure, TemplateInfo};
use baker::store::TemplateMetadata;

#[test]
fn test_handler_creation() {
    let _handler = BakerHandler::default();
}

#[test]
fn test_list_templates_tool_creation() {
    let tool = ListTemplatesTool {};
    assert!(std::mem::size_of_val(&tool) >= 0);
}

#[test]
fn tools_are_found_by_name() {
    let handler = BakerHandler::default();
    assert_eq!(handler.tool_for("list_templates"), Some(ToolName::ListTemplates));
    assert_eq!(handler.tool_for("generate"), Some(ToolName::Generate));
    assert_eq!(handler.tool_for("other"), None);
}

fn question(kind: Type, default: JsonValue, help: &str, ask_if: &str, choices: Vec<String>) -> Question {
    Question {
        help: help.to_string(),
        kind,
        default,
        choices,
        multiselect: false,
        secret: None,
        ask_if: ask_if.to_string(),
        schema: None,
        schema_file: None,
        validation: Validation { condition: "true".to_string(), error_message: "bad".to_string() },
    }
}

#[test]
fn question_info_describes_questions() {
    let q = question(Type::Str, JsonValue::Null, "Project name", "", vec![]);
    let info = question_info("name".to_string(), &q);
    assert_eq!(info.name, "name");
    assert_eq!(info.help, Some("Project name".to_string()));
    assert_eq!(info.kind, "str");
    assert_eq!(info.default, None);
    assert!(info.required);
    assert!(info.choices.is_none());

    let q = question(Type::Bool, JsonValue::Bool(true), "", "", vec![]);
    let info = question_info("tests".to_string(), &q);
    assert_eq!(info.help, None);
    assert_eq!(info.kind, "bool");
    assert_eq!(info.default, Some("true".to_string()));
    assert!(!info.required);

    let q = question(Type::Str, JsonValue::Null, "", "use_ci", vec!["a".to_string(), "b".to_string()]);
    let info = question_info("ci".to_string(), &q);
    assert!(!info.required);
    assert_eq!(info.choices, Some(vec!["a".to_string(), "b".to_string()]));

    let q = question(Type::Yaml, JsonValue::String("x: 1".to_string()), "", "", vec![]);
    assert_eq!(question_info("y".to_string(), &q).default, Some("x: 1".to_string()));
}

#[test]
fn extract_questions_keeps_order() {
    let qs = vec![
        ("b".to_string(), question(Type::Str, JsonValue::Null, "", "", vec![])),
        ("a".to_string(), question(Type::Json, JsonValue::Null, "", "", vec![])),
    ];
    let infos = extract_questions(&qs);
    assert_eq!(infos.len(), 2);
    assert_eq!(infos[0].name, "b");
    assert_eq!(infos[1].kind, "json");
}

#[test]
fn list_templates_tool_reports_usage_and_failures() {
    let meta = TemplateMetadata::new("demo", "https://github.com/o/demo", "now".to_string(), None);
    let listed = ListTemplatesTool::execute(Ok(vec![(meta, vec![])])).unwrap();
    assert_eq!(listed.len(), 1);
    assert_eq!(
        listed[0].usage,
        "baker generate demo <output_dir> --answers '{\"variable\": \"value\"}'"
    );
    let err = ListTemplatesTool::execute(Err(ListingFailure::Listing(Error::Other("denied".to_string())))).unwrap_err();
    assert_eq!(err, "Failed to list templates: denied");
    let err = ListTemplatesTool::execute(Err(ListingFailure::StoreAccess(Error::Other("no home".to_string())))).unwrap_err();
    assert_eq!(err, "Failed to access template store: no home");
    let info = TemplateInfo::new(TemplateMetadata::new("x", "y", "z".to_string(), Some("d".to_string())), vec![]);
    assert_eq!(info.description, Some("d".to_string()));
}

#[test]
fn generate_tool_builds_a_non_interactive_run() {
    let tool = GenerateTool {
        template: "demo".to_string(),
        output_dir: "/tmp/test".to_string(),
        answers: JsonMap::new(),
        force: false,
    };
    let args = tool.run_args("{}".to_string());
    assert_eq!(args.template, "demo");
    assert_eq!(args.output_dir, "/tmp/test");
    assert!(args.non_interactive);
    assert_eq!(args.answers, Some("{}".to_string()));
    assert_eq!(tool.not_installed(), "Template 'demo' is not installed. Use list_templates to see available templates.");
    assert_eq!(tool.outcome(Ok(())).unwrap(), "Successfully generated project from template 'demo' in '/tmp/test'");
    assert_eq!(tool.outcome(Err(Error::Other("boom".to_string()))).unwrap_err(), "Generation failed: boom");
}

#[test]
fn tools_test_generate_tool_creation() {
    let tool = GenerateTool {
        template: "test".to_string(),
        output_dir: "/tmp/test".to_string(),
        answers: JsonMap::new(),
        force: false,
    };
    assert_eq!(tool.template, "test");
    assert_eq!(tool.output_dir, "/tmp/test");
}

#[test]
fn mcp_integration_tests_test_generate_tool_creation() {
    let mut answers = JsonMap::new();
    answers.insert("project_name".to_string(), JsonValue::String("my-project".to_string()));
    answers.insert("use_docker".to_string(), JsonValue::Bool(true));
    let tool = GenerateTool {
        template: "my-template".to_string(),
        output_dir: "/tmp/output".to_string(),
        answers,
        force: false,
    };
    assert_eq!(tool.template, "my-template");
    assert_eq!(tool.output_dir, "/tmp/output");
    assert_eq!(tool.answers.len(), 2);
    assert!(!tool.force);
}
