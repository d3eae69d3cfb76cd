//! Boolean confirmation prompts.
use vstd::prelude::*;

use crate::error::Result;
use crate::json::{Json, JsonValue};
use crate::prompt::confirmation_config;
use crate::prompt::interface::ConfirmationConfig;

verus! {

/// Handles boolean confirmation prompts
#[derive(Debug)]
pub struct ConfirmationPrompter;

impl ConfirmationPrompter {
    /// The prompt for a boolean question: its help, and its boolean
    /// default (else no).
    pub fn config(&self, default: &JsonValue, help: &str) -> (r: ConfirmationConfig)
        ensures
            r.prompt@ == help@,
            r.default == match default@ {
                Json::Bool(b) => b,
                _ => false,
            },
    {
        confirmation_config(default, help)
    }
}

/// Simple confirmation function for backward compatibility: asks with
/// `prompter` unless `skip` is set, in which case the answer is yes.
pub fn confirm<P: crate::prompt::interface::ConfirmationPrompter>(prompter: &P, skip: bool, prompt: String) -> (r: Result<bool>)
    ensures
        skip ==> r == Ok::<bool, crate::error::Error>(true),
        !skip ==> prompter.may_reply((ConfirmationConfig { prompt, default: false }), r),
{
    crate::dialoguer::confirm(prompter, skip, prompt)
}

} // verus!
