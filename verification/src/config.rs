//! Configuration management for Baker templates
//!
//! - `types`: basic types and enums used throughout the config system
//! - `question`: question definition and rendering rules
//! - `loader`: the configuration record and its validation
use vstd::prelude::*;

/// Configuration record and its validation.
pub mod loader;
/// Question definition and rendering rules.
pub mod question;
/// Basic types and enums for configuration.
pub mod types;

pub use loader::{Config, ConfigV1};
pub use question::{IntoQuestionType, Question, QuestionRendered};
pub use types::{QuestionType, Secret, Type, Validation};

verus! {
} // verus!
