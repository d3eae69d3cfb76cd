//! The metadata file saved in a generated project.
use vstd::prelude::*;

use crate::config::ConfigV1;
use crate::json::JsonValue;
use crate::paths::{path_join, path_join_exec};

verus! {

/// The name of the metadata file.
pub const META_FILENAME: &'static str = ".baker-meta.yaml";

/// What is remembered of a generation in the generated project.
#[derive(Debug)]
pub struct BakerMeta {
    /// Version of the tool that generated the project.
    pub baker_version: String,
    /// The template as it was given.
    pub template_source: String,
    /// The template directory used.
    pub template_root: String,
    /// The template's git commit, when it is a repository.
    pub git_commit: Option<String>,
    /// The answers.
    pub answers: JsonValue,
    /// The template's configuration.
    pub config: ConfigV1,
}

impl BakerMeta {
    /// The path of the metadata file of a project.
    pub fn path(output_root: &str) -> (r: String)
        ensures
            r@ == path_join(output_root@, META_FILENAME@),
    {
        path_join_exec(output_root, META_FILENAME)
    }
}

} // verus!
