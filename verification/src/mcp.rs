//! The tools offered over the Model Context Protocol: listing the installed
//! templates with their questions, and generating a project.
use vstd::prelude::*;

/// The tools and what they report.
pub mod tools;
/// Dispatching tool calls.
pub mod handler;

verus! {
} // verus!
