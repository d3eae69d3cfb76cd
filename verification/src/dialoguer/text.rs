//! Text input prompts.
use vstd::prelude::*;

use crate::config::question::Question;
use crate::json::{compact_text, Json, JsonValue};
use crate::prompt::interface::TextPromptConfig;
use crate::prompt::{default_string, text_prompt_config};

verus! {

/// Handles text input prompts including password fields
#[derive(Debug)]
pub struct TextPrompter;

impl TextPrompter {
    /// The text a default is offered as: a string as it is, nothing for
    /// `null`, other values as their JSON text.
    pub fn value_to_default_string(&self, value: &JsonValue) -> (r: String)
        ensures
            value@ matches Json::Str(s) ==> r@ == s,
            value@ is Null ==> r@ == Seq::<char>::empty(),
            !(value@ is Str || value@ is Null) ==> r@ == compact_text(value@),
    {
        default_string(value)
    }

    /// The prompt for a text question.
    pub fn config(&self, question: &Question, default: &JsonValue, help: &str) -> (r: TextPromptConfig)
        ensures
            r.prompt@ == help@,
            question.secret is None ==> r.secret is None,
            default@ matches Json::Str(s) ==> (r.default matches Some(d) && d@ == s),
    {
        text_prompt_config(question, self.value_to_default_string(default), help)
    }
}

} // verus!
