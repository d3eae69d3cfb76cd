//! Basic types and enums for configuration
use vstd::prelude::*;

use crate::constants::validation;

verus! {

/// Type of question to be presented to the user
#[derive(Debug, Clone, Copy, PartialEq, Eq, Structural)]
pub enum Type {
    /// String input question type
    Str,
    /// Boolean (yes/no) question type
    Bool,
    /// JSON structured input type
    Json,
    /// YAML structured input type
    Yaml,
}

/// Settings of a secret (password-like) question.
#[derive(Debug)]
pub struct Secret {
    /// Whether the secret should have confirmation
    pub confirm: bool,
    /// Message shown when the secret and its confirmation differ.
    pub mistmatch_err: String,
}

/// Validation rule of a question's answer.
#[derive(Debug)]
pub struct Validation {
    /// Expression that must evaluate to true for the answer to be accepted.
    pub condition: String,
    /// Message shown when the condition fails.
    pub error_message: String,
}

/// The kind of prompt a question is asked with.
#[derive(Debug, Clone, Copy, PartialEq, Eq, Structural)]
pub enum QuestionType {
    MultipleChoice,
    SingleChoice,
    Text,
    Boolean,
    Json,
    Yaml,
}

/// Default message for an answer that fails validation.
pub fn get_default_error_message() -> (r: String)
    ensures
        r@ == validation::INVALID_ANSWER@,
{
    String::from_str(validation::INVALID_ANSWER)
}

/// Default message for a secret whose confirmation differs.
pub fn get_default_mismatch_error() -> (r: String)
    ensures
        r@ == validation::PASSWORDS_MISMATCH@,
{
    String::from_str(validation::PASSWORDS_MISMATCH)
}

/// Default validation condition, accepting every answer.
pub fn get_default_condition() -> (r: String)
    ensures
        r@ == validation::DEFAULT_CONDITION@,
{
    String::from_str(validation::DEFAULT_CONDITION)
}

/// Default validation rule: condition `true` with the default error message.
pub fn get_default_validation() -> (r: Validation)
    ensures
        r.condition@ == validation::DEFAULT_CONDITION@,
        r.error_message@ == validation::INVALID_ANSWER@,
{
    Validation { condition: get_default_condition(), error_message: get_default_error_message() }
}

} // verus!
