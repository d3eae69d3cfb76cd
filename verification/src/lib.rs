//! # Baker
//!
//! Core library of the Baker project scaffolding tool: configuration
//! handling, answer collection rules, conflict-marker merging, the template
//! store's naming rules and the command-line model.
use vstd::prelude::*;

pub mod cli;
pub mod config;
pub mod conflict;
pub mod constants;
pub mod dialoguer;
pub mod error;
pub mod generated;
pub mod globs;
pub mod ignore;
pub mod import;
pub mod json;
pub mod loader;
pub mod mcp;
pub mod paths;
pub mod prompt;
pub mod renderer;
pub mod schema;
pub mod store;
pub mod text;
pub mod web;

verus! {
} // verus!
