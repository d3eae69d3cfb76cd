use baker::config::question::Question;
use baker::config::types::{Secret, Type, Validation};
use baker::dialoguer::confirm;
use baker::error::{Error, Result};
use baker::json::JsonValue;
use baker::prompt::interface::{
    ConfirmationConfig, ConfirmationPrompter, MultipleChoiceConfig, MultipleChoicePrompter,
    SingleChoiceConfig, SingleChoicePrompter, StructuredDataConfig, StructuredDataPrompter,
    TextPromptConfig, TextPrompter,
};
use baker::prompt::{ask_question, multiple_choice_config, single_choice_config, text_prompt_config};

/// Answers every prompt with fixed replies and records what it was asked.
struct Scripted {
    text: String,
    single: usize,
    multiple: Vec<usize>,
    confirm: bool,
}

impl TextPrompter for Scripted {
    fn prompt_text(&self, _config: &TextPromptConfig) -> Result<String> {
        Ok(self.text.clone())
    }
}
impl SingleChoicePrompter for Scripted {
    fn prompt_single_choice(&self, _config: &SingleChoiceConfig) -> Result<usize> {
        Ok(self.single)
    }
}
impl MultipleChoicePrompter for Scripted {
    fn prompt_multiple_choice(&self, _config: &MultipleChoiceConfig) -> Result<Vec<usize>> {
        Ok(self.multiple.clone())
    }
}
impl ConfirmationPrompter for Scripted {
    fn may_reply(&self, _config: ConfirmationConfig, _reply: Result<bool>) -> bool {
        unreachable!("specification functions are not run")
    }

    fn prompt_confirmation(&self, config: &ConfirmationConfig) -> Result<bool> {
        Ok(self.confirm && !config.prompt.is_empty())
    }
}
impl StructuredDataPrompter for Scripted {
    fn prompt_structured_data(&self, config: &StructuredDataConfig) -> Result<JsonValue> {
        Ok(JsonValue::String(config.file_extension.clone()))
    }
}

fn question(kind: Type, choices: &[&str], multiselect: bool, secret: Option<Secret>) -> Question {
    Question {
        help: "help".to_string(),
        kind,
        default: JsonValue::Null,
        choices: choices.iter().map(|c| c.to_string()).collect(),
        multiselect,
        secret,
        ask_if: String::new(),
        schema: None,
        schema_file: None,
        validation: Validation { condition: "true".to_string(), error_message: "bad".to_string() },
    }
}

fn scripted() -> Scripted {
    Scripted { text: "typed".to_string(), single: 1, multiple: vec![2, 0], confirm: true }
}

#[test]
fn ask_question_by_kind() {
    let p = scripted();
    let q = question(Type::Str, &[], false, None);
    assert_eq!(format!("{:?}", ask_question(&p, &q, &JsonValue::Null, "h").unwrap()), format!("{:?}", JsonValue::String("typed".to_string())));
    let q = question(Type::Str, &["a", "b", "c"], false, None);
    assert_eq!(format!("{:?}", ask_question(&p, &q, &JsonValue::Null, "h").unwrap()), format!("{:?}", JsonValue::String("b".to_string())));
    let q = question(Type::Str, &["a", "b", "c"], true, None);
    assert_eq!(
        format!("{:?}", ask_question(&p, &q, &JsonValue::Null, "h").unwrap()),
        format!("{:?}", JsonValue::Array(vec![JsonValue::String("c".to_string()), JsonValue::String("a".to_string())]))
    );
    let q = question(Type::Bool, &[], false, None);
    assert_eq!(format!("{:?}", ask_question(&p, &q, &JsonValue::Null, "h").unwrap()), format!("{:?}", JsonValue::Bool(true)));
    let q = question(Type::Yaml, &[], false, None);
    assert_eq!(format!("{:?}", ask_question(&p, &q, &JsonValue::Null, "h").unwrap()), format!("{:?}", JsonValue::String(".yaml".to_string())));
}

#[test]
fn out_of_range_selection_is_an_error() {
    let p = Scripted { single: 9, ..scripted() };
    let q = question(Type::Str, &["a"], false, None);
    assert!(ask_question(&p, &q, &JsonValue::Null, "h").is_err());
}

#[test]
fn prompt_configs_from_defaults() {
    let choices = vec!["a".to_string(), "b".to_string(), "b".to_string()];
    assert_eq!(single_choice_config(&choices, &JsonValue::String("b".to_string()), "h").default_index, Some(1));
    assert_eq!(single_choice_config(&choices, &JsonValue::String("z".to_string()), "h").default_index, Some(0));
    let defaults = JsonValue::Array(vec![JsonValue::String("b".to_string()), JsonValue::Bool(true)]);
    assert_eq!(multiple_choice_config(&choices, &defaults, "h").defaults, vec![false, true, true]);
    let q = question(Type::Str, &[], false, Some(Secret { confirm: true, mistmatch_err: String::new() }));
    let config = text_prompt_config(&q, "d".to_string(), "h");
    let secret = config.secret.unwrap();
    assert!(secret.confirm);
    assert_eq!(secret.mismatch_error, "Mismatch");
    assert_eq!(config.default, Some("d".to_string()));
}

#[test]
fn confirm_skips_when_asked_to() {
    let p = Scripted { confirm: false, ..scripted() };
    assert!(confirm(&p, true, "Run?".to_string()).unwrap());
    assert!(!confirm(&p, false, "Run?".to_string()).unwrap());
}

#[test]
fn blank_structured_input_falls_back() {
    assert_eq!(baker::prompt::entered_text(None), None);
    assert_eq!(baker::prompt::entered_text(Some(" \n\t".to_string())), None);
    assert_eq!(baker::prompt::entered_text(Some("a: 1".to_string())), Some("a: 1".to_string()));
}
