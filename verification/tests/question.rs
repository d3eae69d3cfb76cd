use baker::config::loader::{Config, ConfigV1};
use baker::config::question::{IntoQuestionType, Question};
use baker::config::types::{QuestionType, Type, Validation};
use baker::error::{Error, Result};
use baker::json::{Json, JsonMap, JsonValue};
use baker::renderer::{TemplateRenderer, Templates, Text};

struct Engine;

impl TemplateRenderer for Engine {
    fn registered(&self) -> Templates {
        unreachable!("specification functions are not run")
    }

    fn rendered(&self, _template: Text, _context: Json, _name: Option<Text>) -> Result<String> {
        unreachable!("specification functions are not run")
    }

    fn evaluated(&self, _expression: Text, _context: Json) -> Result<bool> {
        unreachable!("specification functions are not run")
    }

    fn render(&self, template: &str, _context: &JsonValue, _name: Option<&str>) -> Result<String> {
        if template == "broken" {
            Err(Error::MinijinjaError("broken".to_string()))
        } else {
            Ok(template.replace("{{ name }}", "proj"))
        }
    }
    fn execute_expression(&self, expression: &str, _context: &JsonValue) -> Result<bool> {
        match expression {
            "" | "true" => Ok(true),
            "false" => Ok(false),
            _ => Err(Error::MinijinjaError("bad expression".to_string())),
        }
    }
    fn add_template(&mut self, _name: &str, _content: &str) -> Result<()> {
        Ok(())
    }
}

struct Data;

impl Data {
    fn parse_json(&self, text: &str) -> Result<JsonValue> {
        if text == "[]" { Ok(JsonValue::Array(vec![])) } else { Err(Error::JSONParseError(text.to_string())) }
    }
    fn parse_yaml(&self, _text: &str) -> Result<JsonValue> {
        Err(Error::YAMLParseError("no".to_string()))
    }
}

fn question(kind: Type, default: JsonValue, choices: &[&str], ask_if: &str, help: &str) -> Question {
    Question {
        help: help.to_string(),
        kind,
        default,
        choices: choices.iter().map(|c| c.to_string()).collect(),
        multiselect: false,
        secret: None,
        ask_if: ask_if.to_string(),
        schema: None,
        schema_file: None,
        validation: Validation { condition: "true".to_string(), error_message: "bad".to_string() },
    }
}

fn answers_with(key: &str, value: JsonValue) -> JsonValue {
    let mut m = JsonMap::new();
    m.insert(key.to_string(), value);
    JsonValue::Object(m)
}

#[test]
fn question_kinds() {
    assert_eq!(question(Type::Str, JsonValue::Null, &[], "", "").into_question_type(), QuestionType::Text);
    assert_eq!(question(Type::Str, JsonValue::Null, &["a"], "", "").question_type(), QuestionType::SingleChoice);
    assert_eq!(question(Type::Bool, JsonValue::Null, &["a"], "", "").question_type(), QuestionType::Boolean);
}

#[test]
fn render_uses_prefilled_answer_first() {
    let q = question(Type::Str, JsonValue::String("{{ name }}".to_string()), &[], "", "Help {{ name }}");
    let answers = answers_with("title", JsonValue::String("given".to_string()));
    let r = q.render("title", &answers, &Engine, &|t: &str| Data.parse_json(t), &|t: &str| Data.parse_yaml(t));
    assert_eq!(format!("{:?}", r.default), format!("{:?}", JsonValue::String("given".to_string())));
    assert_eq!(r.help, "Help proj");
    assert!(r.ask_if);
    assert_eq!(r.kind, QuestionType::Text);
}

#[test]
fn render_renders_text_defaults_and_conditions() {
    let q = question(Type::Str, JsonValue::String("{{ name }}-app".to_string()), &[], "false", "broken");
    let r = q.render("title", &JsonValue::Object(JsonMap::new()), &Engine, &|t: &str| Data.parse_json(t), &|t: &str| Data.parse_yaml(t));
    assert_eq!(format!("{:?}", r.default), format!("{:?}", JsonValue::String("proj-app".to_string())));
    assert_eq!(r.help, "broken");
    assert!(!r.ask_if);
    let q = question(Type::Str, JsonValue::Null, &[], "weird", "h");
    assert!(q.render("x", &JsonValue::Null, &Engine, &|t: &str| Data.parse_json(t), &|t: &str| Data.parse_yaml(t)).ask_if);
}

#[test]
fn render_boolean_and_structured_defaults() {
    let q = question(Type::Bool, JsonValue::String("yes".to_string()), &[], "", "h");
    let r = q.render("flag", &JsonValue::Null, &Engine, &|t: &str| Data.parse_json(t), &|t: &str| Data.parse_yaml(t));
    assert_eq!(format!("{:?}", r.default), format!("{:?}", JsonValue::Bool(false)));
    let q = question(Type::Json, JsonValue::String("[]".to_string()), &[], "", "h");
    let r = q.render("data", &JsonValue::Null, &Engine, &|t: &str| Data.parse_json(t), &|t: &str| Data.parse_yaml(t));
    assert_eq!(format!("{:?}", r.default), format!("{:?}", JsonValue::Array(vec![])));
    let q = question(Type::Json, JsonValue::String("not json".to_string()), &[], "", "h");
    let r = q.render("data", &JsonValue::Null, &Engine, &|t: &str| Data.parse_json(t), &|t: &str| Data.parse_yaml(t));
    assert_eq!(format!("{:?}", r.default), format!("{:?}", JsonValue::Object(JsonMap::new())));
}

fn config(suffix: &str) -> ConfigV1 {
    ConfigV1 {
        template_suffix: suffix.to_string(),
        loop_separator: "---".to_string(),
        loop_content_separator: "***+++***".to_string(),
        template_globs: vec![],
        import_root: None,
        questions: vec![],
        post_hook_filename: "post".to_string(),
        pre_hook_filename: "pre".to_string(),
        post_hook_runner: vec![],
        pre_hook_runner: vec![],
        follow_symlinks: false,
    }
}

#[test]
fn template_suffix_validation() {
    assert!(config(".baker.j2").validate().is_ok());
    assert_eq!(
        config("").validate().unwrap_err(),
        Error::ConfigValidation("template_suffix must not be empty".to_string())
    );
    assert_eq!(
        config("invalid").validate().unwrap_err(),
        Error::ConfigValidation("template_suffix must start with '.' and have at least 1 character after it".to_string())
    );
    assert!(config(".").validate().is_err());
}

#[test]
fn config_not_found_lists_the_file_names() {
    match Config::not_found("/tpl") {
        Error::ConfigNotFound { template_dir, config_files } => {
            assert_eq!(template_dir, "/tpl");
            assert_eq!(config_files, "baker.json, baker.yaml, baker.yml");
        }
        other => panic!("unexpected {other:?}"),
    }
}

#[test]
fn validate_accepts_valid_template_suffix() {
    assert!(config(".j2").validate().is_ok());
}

#[test]
fn validate_rejects_empty_template_suffix() {
    let result = config("").validate();
    assert!(result.is_err());
    assert!(result.unwrap_err().to_string().contains("must not be empty"));
}

#[test]
fn validate_rejects_template_suffix_without_dot() {
    let result = config("j2").validate();
    assert!(result.is_err());
    assert!(result.unwrap_err().to_string().contains("must start with '.'"));
}

#[test]
fn validate_rejects_template_suffix_with_only_dot() {
    assert!(config(".").validate().is_err());
}

#[test]
fn import_dir_is_relative_to_the_template_unless_absolute() {
    let mut c = config(".j2");
    assert_eq!(c.import_dir("/tpl"), "/tpl");
    c.import_root = Some("templates/shared".to_string());
    assert_eq!(c.import_dir("/tpl"), "/tpl/templates/shared");
    c.import_root = Some("/usr/local/templates".to_string());
    assert_eq!(c.import_dir("/tpl"), "/usr/local/templates");
}

#[test]
fn configuration_files_are_looked_for_in_order() {
    assert_eq!(Config::pick_file("/tpl", [true, true, false]).unwrap(), "baker.json");
    assert_eq!(Config::pick_file("/tpl", [false, true, true]).unwrap(), "baker.yaml");
    assert_eq!(Config::pick_file("/tpl", [false, false, true]).unwrap(), "baker.yml");
    let err = Config::pick_file("/tpl", [false, false, false]).unwrap_err();
    assert!(err.to_string().contains("Configuration file not found"));
    assert!(Config::is_json_file("baker.json"));
    assert!(!Config::is_json_file("baker.yml"));
}
