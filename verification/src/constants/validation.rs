//! Validation messages and defaults.
use vstd::prelude::*;

verus! {

/// Message shown for an answer that fails validation.
pub const INVALID_ANSWER: &'static str = "Invalid answer";

/// Message shown when a secret and its confirmation differ.
pub const PASSWORDS_MISMATCH: &'static str = "Passwords do not match";

/// Validation condition that accepts every answer.
pub const DEFAULT_CONDITION: &'static str = "true";

} // verus!
