//! Pure interfaces for prompting, independent of any user-interface library.
use vstd::prelude::*;

use crate::error::Result;
use crate::json::JsonValue;

verus! {

/// Configuration for text input prompts
#[derive(Debug)]
pub struct TextPromptConfig {
    /// The prompt text.
    pub prompt: String,
    /// The text offered as default.
    pub default: Option<String>,
    /// Set for secret input.
    pub secret: Option<SecretConfig>,
}

/// Configuration for password/secret input
#[derive(Debug)]
pub struct SecretConfig {
    /// Whether the secret is asked twice.
    pub confirm: bool,
    /// Message shown when the two entries differ.
    pub mismatch_error: String,
}

/// Configuration for single choice selection
#[derive(Debug)]
pub struct SingleChoiceConfig {
    /// The prompt text.
    pub prompt: String,
    /// The choices offered.
    pub choices: Vec<String>,
    /// The index of the choice selected at first.
    pub default_index: Option<usize>,
}

/// Configuration for multiple choice selection
#[derive(Debug)]
pub struct MultipleChoiceConfig {
    /// The prompt text.
    pub prompt: String,
    /// The choices offered.
    pub choices: Vec<String>,
    /// For each choice, whether it is selected at first.
    pub defaults: Vec<bool>,
}

/// Configuration for boolean confirmation
#[derive(Debug)]
pub struct ConfirmationConfig {
    /// The prompt text.
    pub prompt: String,
    /// The answer offered as default.
    pub default: bool,
}

/// Configuration for structured data input (JSON/YAML)
#[derive(Debug)]
pub struct StructuredDataConfig {
    /// The prompt text.
    pub prompt: String,
    /// The value offered as default.
    pub default_value: JsonValue,
    /// Whether the data is YAML (else JSON).
    pub is_yaml: bool,
    /// File extension of the data, for an editor.
    pub file_extension: String,
}

/// Abstract interface for text input prompts
pub trait TextPrompter {
    /// Asks for a line of text.
    fn prompt_text(&self, config: &TextPromptConfig) -> Result<String>;
}

/// Abstract interface for single choice selection
pub trait SingleChoicePrompter {
    /// Asks for one of the choices; returns its index.
    fn prompt_single_choice(&self, config: &SingleChoiceConfig) -> Result<usize>;
}

/// Abstract interface for multiple choice selection
pub trait MultipleChoicePrompter {
    /// Asks for any of the choices; returns their indices.
    fn prompt_multiple_choice(&self, config: &MultipleChoiceConfig) -> Result<Vec<usize>>;
}

/// Abstract interface for boolean confirmation
///
/// What the user replies is not known in advance: `may_reply` relates each
/// question to the outcomes the prompter may give for it.
pub trait ConfirmationPrompter {
    /// Whether `reply` is an outcome this prompter may give when asked
    /// `config`.
    spec fn may_reply(&self, config: ConfirmationConfig, reply: Result<bool>) -> bool;

    /// Asks a yes/no question.
    fn prompt_confirmation(&self, config: &ConfirmationConfig) -> (r: Result<bool>)
        ensures
            self.may_reply(*config, r),
    ;
}

/// Abstract interface for structured data input
pub trait StructuredDataPrompter {
    /// Asks for a JSON or YAML value.
    fn prompt_structured_data(&self, config: &StructuredDataConfig) -> Result<JsonValue>;
}

/// Combined interface that provides all prompt types
pub trait PromptProvider: TextPrompter + SingleChoicePrompter + MultipleChoicePrompter +
    ConfirmationPrompter + StructuredDataPrompter {

}

impl<T> PromptProvider for T where
    T: TextPrompter + SingleChoicePrompter + MultipleChoicePrompter + ConfirmationPrompter
        + StructuredDataPrompter,
 {

}

} // verus!
