//! The model of the web front end: template registry entries, loading
//! states, the form built from a configuration, and project rendering.
use vstd::prelude::*;

/// The GitHub requests of the front end and what is kept of the replies.
pub mod github;
/// Form fields built from a template configuration.
pub mod form;
/// Template registry entries and loading states.
pub mod models;
/// The preview of a generated project.
pub mod preview;
/// Rendering a project's paths and files.
pub mod render;
/// The community template registry and GitHub URLs.
pub mod templates;

verus! {
} // verus!
