use baker::config::types::{
    get_default_condition, get_default_error_message, get_default_mismatch_error,
    get_default_validation, QuestionType, Secret, Type, Validation,
};
use baker::constants::validation;

#[test]
fn test_get_default_error_message() {
    let msg = get_default_error_message();
    assert_eq!(msg, validation::INVALID_ANSWER);
}

#[test]
fn test_get_default_mismatch_error() {
    let msg = get_default_mismatch_error();
    assert_eq!(msg, validation::PASSWORDS_MISMATCH);
}

#[test]
fn test_get_default_condition() {
    let condition = get_default_condition();
    assert_eq!(condition, validation::DEFAULT_CONDITION);
}

#[test]
fn test_get_default_validation() {
    let v = get_default_validation();
    assert_eq!(v.condition, "true");
    assert_eq!(v.error_message, validation::INVALID_ANSWER);
}

#[test]
fn test_question_type_equality() {
    assert_eq!(QuestionType::MultipleChoice, QuestionType::MultipleChoice);
    assert_eq!(QuestionType::SingleChoice, QuestionType::SingleChoice);
    assert_eq!(QuestionType::Text, QuestionType::Text);
    assert_eq!(QuestionType::Boolean, QuestionType::Boolean);
    assert_eq!(QuestionType::Json, QuestionType::Json);
    assert_eq!(QuestionType::Yaml, QuestionType::Yaml);

    assert_ne!(QuestionType::Text, QuestionType::Boolean);
    assert_ne!(QuestionType::Json, QuestionType::Yaml);
}

#[test]
fn test_type_enum_debug() {
    assert!(format!("{:?}", Type::Str).contains("Str"));
    assert!(format!("{:?}", Type::Bool).contains("Bool"));
    assert!(format!("{:?}", Type::Json).contains("Json"));
    assert!(format!("{:?}", Type::Yaml).contains("Yaml"));
}

#[test]
fn test_secret_debug() {
    let secret = Secret { confirm: true, mistmatch_err: "test".to_string() };
    let debug_str = format!("{:?}", secret);
    assert!(debug_str.contains("Secret"));
    assert!(debug_str.contains("confirm"));
    assert!(debug_str.contains("true"));
}

#[test]
fn test_validation_debug() {
    let v = Validation {
        condition: "test_condition".to_string(),
        error_message: "test_message".to_string(),
    };
    let debug_str = format!("{:?}", v);
    assert!(debug_str.contains("Validation"));
    assert!(debug_str.contains("test_condition"));
    assert!(debug_str.contains("test_message"));
}
