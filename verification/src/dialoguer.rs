//! Interactive dialog helpers built on the prompt interfaces.
use vstd::prelude::*;

/// Boolean confirmation prompts.
pub mod confirmation;
/// Text input prompts.
pub mod text;

use crate::error::Result;
use crate::prompt::interface::ConfirmationConfig;

verus! {

/// Asks a yes/no question with `prompter` (default: no); when `skip` is
/// set nothing is asked and the answer is yes.
pub fn confirm<P: crate::prompt::interface::ConfirmationPrompter>(prompter: &P, skip: bool, prompt: String) -> (r: Result<bool>)
    ensures
        skip ==> r == Ok::<bool, crate::error::Error>(true),
        !skip ==> prompter.may_reply((ConfirmationConfig { prompt, default: false }), r),
{
    if skip {
        return Ok(true);
    }
    prompter.prompt_confirmation(&ConfirmationConfig { prompt, default: false })
}

} // verus!
