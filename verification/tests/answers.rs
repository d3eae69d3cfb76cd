use baker::cli::answers::{has_escaped_quote, AfterPrompt, AnswerCollector, QuestionStep, ValidationError};
use baker::config::question::Question;
use baker::config::types::{Type, Validation};
use baker::error::{Error, Result};
use baker::json::{Json, JsonMap, JsonValue};
use baker::renderer::{TemplateRenderer, Templates, Text};

struct Engine {
    condition: Result<bool>,
}

impl TemplateRenderer for Engine {
    fn registered(&self) -> Templates {
        unreachable!("specification functions are not run")
    }

    fn rendered(&self, _template: Text, _context: Json, _name: Option<Text>) -> Result<String> {
        unreachable!("specification functions are not run")
    }

    fn evaluated(&self, _expression: Text, _context: Json) -> Result<bool> {
        unreachable!("specification functions are not run")
    }

    fn render(&self, template: &str, _context: &JsonValue, _name: Option<&str>) -> Result<String> {
        Ok(format!("rendered: {template}"))
    }
    fn execute_expression(&self, _expression: &str, _context: &JsonValue) -> Result<bool> {
        match &self.condition {
            Ok(b) => Ok(*b),
            Err(e) => Err(e.clone()),
        }
    }
    fn add_template(&mut self, _name: &str, _content: &str) -> Result<()> {
        Ok(())
    }
}

/// Parses only `{"key":"value"}`-shaped objects of one string entry.
struct TinyJson;

impl TinyJson {
    fn parse_json(&self, text: &str) -> Result<JsonValue> {
        let t = text.trim();
        if t == "[]" {
            return Ok(JsonValue::Array(vec![]));
        }
        let inner = t
            .strip_prefix('{')
            .and_then(|r| r.strip_suffix('}'))
            .ok_or_else(|| Error::JSONParseError(format!("not an object: {t}")))?;
        let mut map = JsonMap::new();
        if !inner.is_empty() {
            let (k, v) = inner.split_once(':').ok_or_else(|| Error::JSONParseError("no colon".to_string()))?;
            let unq = |s: &str| -> Result<String> {
                s.trim()
                    .strip_prefix('"')
                    .and_then(|r| r.strip_suffix('"'))
                    .map(|r| r.to_string())
                    .ok_or_else(|| Error::JSONParseError(format!("not a string: {s}")))
            };
            map.insert(unq(k)?, JsonValue::String(unq(v)?));
        }
        Ok(JsonValue::Object(map))
    }
}

fn question(kind: Type, default: JsonValue, schema: Option<String>, condition: &str, message: &str) -> Question {
    Question {
        help: String::new(),
        kind,
        default,
        choices: vec![],
        multiselect: false,
        secret: None,
        ask_if: String::new(),
        schema,
        schema_file: None,
        validation: Validation { condition: condition.to_string(), error_message: message.to_string() },
    }
}

#[test]
fn parse_string_to_json_handles_escaped_quotes() {
    let engine = Engine { condition: Ok(true) };
    let collector = AnswerCollector::new(&engine, true);
    let map = collector.parse_string_to_json("{\\\"foo\\\":\\\"bar\\\"}".to_string(), &|t: &str| TinyJson.parse_json(t)).unwrap();
    match map.get("foo") {
        Some(JsonValue::String(s)) => assert_eq!(s, "bar"),
        other => panic!("unexpected {other:?}"),
    }
}

#[test]
fn parse_string_to_json_reports_the_first_error() {
    let engine = Engine { condition: Ok(true) };
    let collector = AnswerCollector::new(&engine, true);
    let err = collector.parse_string_to_json("nope".to_string(), &|t: &str| TinyJson.parse_json(t)).unwrap_err();
    assert_eq!(err, Error::JSONParseError("not an object: nope".to_string()));
    let empty = collector.parse_string_to_json("[]".to_string(), &|t: &str| TinyJson.parse_json(t)).unwrap();
    assert_eq!(empty.len(), 0);
}

#[test]
fn escaped_quotes_are_detected_and_removed() {
    assert!(has_escaped_quote("{\\\"a\\\":1}"));
    assert!(!has_escaped_quote("{\"a\":1}"));
    assert_eq!(AnswerCollector::<Engine>::unescape_quotes("{\\\"a\\\":1}"), "{\"a\":1}");
}

#[test]
fn seed_answers_layers_sources() {
    let engine = Engine { condition: Ok(true) };
    let collector = AnswerCollector::new(&engine, true);
    let mut existing = JsonMap::new();
    existing.insert("a".to_string(), JsonValue::String("saved".to_string()));
    existing.insert("b".to_string(), JsonValue::String("saved".to_string()));
    let existing = JsonValue::Object(existing);
    let mut hook = JsonMap::new();
    hook.insert("b".to_string(), JsonValue::String("hook".to_string()));
    hook.insert("c".to_string(), JsonValue::String("hook".to_string()));
    let mut cli = JsonMap::new();
    cli.insert("c".to_string(), JsonValue::String("cli".to_string()));
    let seeded = collector
        .seed_answers(Some(&existing), Some(Ok(JsonValue::Object(hook))), Some(Ok(cli)))
        .unwrap();
    let text = |k: &str| match seeded.get(k) {
        Some(JsonValue::String(s)) => s.clone(),
        other => panic!("unexpected {other:?}"),
    };
    assert_eq!(text("a"), "saved");
    assert_eq!(text("b"), "hook");
    assert_eq!(text("c"), "cli");
    let failed = collector.seed_answers(None, Some(Err(Error::JSONParseError("x".to_string()))), None).unwrap();
    assert_eq!(failed.len(), 0);
    assert!(collector.seed_answers(None, None, Some(Err(Error::JSONParseError("y".to_string())))).is_err());
}

#[test]
fn question_steps() {
    let engine = Engine { condition: Ok(true) };
    let interactive = AnswerCollector::new(&engine, false);
    let quiet = AnswerCollector::new(&engine, true);
    let with_default = question(Type::Str, JsonValue::String("d".to_string()), None, "true", "");
    let without_default = question(Type::Str, JsonValue::Null, None, "true", "");
    let mut answers = JsonMap::new();
    assert_eq!(interactive.question_step("k", &with_default, true, &answers), QuestionStep::Ask);
    assert_eq!(interactive.question_step("k", &with_default, false, &answers), QuestionStep::UseDefault);
    assert_eq!(quiet.question_step("k", &with_default, true, &answers), QuestionStep::UseDefault);
    assert_eq!(quiet.question_step("k", &without_default, true, &answers), QuestionStep::Keep);
    answers.insert("k".to_string(), JsonValue::Bool(true));
    assert_eq!(quiet.question_step("k", &with_default, true, &answers), QuestionStep::Keep);
}

#[test]
fn test_validate_answer_json_schema_valid_and_invalid() {
    let engine = Engine { condition: Ok(true) };
    let collector = AnswerCollector::new(&engine, false);
    let q = question(Type::Json, JsonValue::Null, Some(r#"{"type": "object"}"#.to_string()), "true", "error");
    let answers = JsonValue::Object(JsonMap::new());
    assert!(collector.validate_answer(&q, &JsonValue::Object(JsonMap::new()), &answers).is_ok());
    match collector.validate_answer(&q, &JsonValue::Bool(true), &answers) {
        Err(ValidationError::JsonSchema(m)) => {
            assert!(m.starts_with("JSON Schema validation error: Validation failed: Error: "));
            assert!(m.contains("is not of type"));
            assert!(m.ends_with("(at )"));
        }
        other => panic!("unexpected {other:?}"),
    }
    let no_schema = question(Type::Json, JsonValue::Null, None, "false", "error");
    assert!(collector.validate_answer(&no_schema, &JsonValue::Bool(true), &answers).is_ok());
}

#[test]
fn test_validate_answer_field_validation() {
    let answers = JsonValue::Object(JsonMap::new());
    let q = question(Type::Str, JsonValue::Null, None, "false", "custom error");
    let failing = Engine { condition: Ok(false) };
    let collector = AnswerCollector::new(&failing, false);
    match collector.validate_answer(&q, &JsonValue::String("x".to_string()), &answers) {
        Err(ValidationError::FieldValidation(m)) => assert_eq!(m, "rendered: custom error"),
        other => panic!("unexpected {other:?}"),
    }
    let passing = Engine { condition: Ok(true) };
    assert!(AnswerCollector::new(&passing, false).validate_answer(&q, &JsonValue::Null, &answers).is_ok());
    let broken = Engine { condition: Err(Error::MinijinjaError("x".to_string())) };
    assert!(AnswerCollector::new(&broken, false).validate_answer(&q, &JsonValue::Null, &answers).is_ok());
}

#[test]
fn field_validation_falls_back_to_fixed_message() {
    match AnswerCollector::<Engine>::field_validation_outcome(Ok(false), Err(Error::Other("x".to_string()))) {
        Err(ValidationError::FieldValidation(m)) => assert_eq!(m, "Validation failed"),
        other => panic!("unexpected {other:?}"),
    }
}

#[test]
fn after_prompt_asks_again_only_for_unparsed_text() {
    match AnswerCollector::<Engine>::after_prompt(Ok(JsonValue::Bool(true))) {
        AfterPrompt::Record(v) => assert!(matches!(v, JsonValue::Bool(true))),
        other => panic!("unexpected {other:?}"),
    }
    match AnswerCollector::<Engine>::after_prompt(Err(Error::YAMLParseError("bad".to_string()))) {
        AfterPrompt::AskAgain(e) => assert_eq!(e, Error::YAMLParseError("bad".to_string())),
        other => panic!("unexpected {other:?}"),
    }
    match AnswerCollector::<Engine>::after_prompt(Err(Error::JSONParseError("bad".to_string()))) {
        AfterPrompt::AskAgain(e) => assert_eq!(e, Error::JSONParseError("bad".to_string())),
        other => panic!("unexpected {other:?}"),
    }
    match AnswerCollector::<Engine>::after_prompt(Err(Error::DialoguerError("closed".to_string()))) {
        AfterPrompt::Fail(e) => assert_eq!(e, Error::DialoguerError("closed".to_string())),
        other => panic!("unexpected {other:?}"),
    }
}

#[test]
fn after_validation_shows_the_message_and_asks_again() {
    assert_eq!(AnswerCollector::<Engine>::after_validation(Ok(())), None);
    assert_eq!(
        AnswerCollector::<Engine>::after_validation(Err(ValidationError::FieldValidation("too short".to_string()))),
        Some("too short".to_string())
    );
    assert_eq!(
        AnswerCollector::<Engine>::after_validation(Err(ValidationError::JsonSchema("bad schema".to_string()))),
        Some("bad schema".to_string())
    );
}

#[test]
fn answered_keys_are_never_asked_again() {
    let engine = Engine { condition: Ok(true) };
    let collector = AnswerCollector::new(&engine, false);
    let mut answers = JsonMap::new();
    assert!(collector.needs_answer("name", &answers));
    answers.insert("name".to_string(), JsonValue::String("saved".to_string()));
    assert!(!collector.needs_answer("name", &answers));
    assert!(collector.needs_answer("other", &answers));
}
