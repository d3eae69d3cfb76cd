//! The configuration record of a template and its validation.
use vstd::prelude::*;

use crate::config::question::Question;
use crate::constants::{
    CONFIG_FILENAMES, DEFAULT_LOOP_CONTENT_SEPARATOR, DEFAULT_LOOP_SEPARATOR, DEFAULT_POST_HOOK,
    DEFAULT_PRE_HOOK, DEFAULT_TEMPLATE_SUFFIX,
};
use crate::error::{Error, Result};
use crate::paths::{path_join, path_join_exec};
use crate::text::{chars_of, push_str};

verus! {

/// Main configuration structure holding all questions
#[derive(Debug)]
pub struct ConfigV1 {
    /// Suffix that marks a file as a template to render.
    pub template_suffix: String,
    /// Separator between loop items in rendered file names.
    pub loop_separator: String,
    /// Separator between a loop item's name and content.
    pub loop_content_separator: String,
    /// Glob patterns of templates made available for import and include.
    pub template_globs: Vec<String>,
    /// Directory the import globs are relative to.
    pub import_root: Option<String>,
    /// The questions, in the order they are asked.
    pub questions: Vec<(String, Question)>,
    /// File name of the post-generation hook.
    pub post_hook_filename: String,
    /// File name of the pre-generation hook.
    pub pre_hook_filename: String,
    /// Command (and arguments) that runs the post-generation hook.
    pub post_hook_runner: Vec<String>,
    /// Command (and arguments) that runs the pre-generation hook.
    pub pre_hook_runner: Vec<String>,
    /// Whether symbolic links are followed when copying.
    pub follow_symlinks: bool,
}

/// A template configuration, by schema version.
#[derive(Debug)]
pub enum Config {
    /// Schema version `v1`.
    V1(ConfigV1),
}

/// Message of the error for an empty template suffix.
pub open spec fn empty_suffix_message() -> Seq<char> {
    "template_suffix must not be empty"@
}

/// Message of the error for a template suffix without a leading dot.
pub open spec fn bad_suffix_message() -> Seq<char> {
    "template_suffix must start with '.' and have at least 1 character after it"@
}

/// The outcome of validating a template suffix.
pub open spec fn suffix_problem(suffix: Seq<char>) -> Option<Seq<char>> {
    if suffix.len() == 0 {
        Some(empty_suffix_message())
    } else if suffix[0] != '.' || suffix.len() < 2 {
        Some(bad_suffix_message())
    } else {
        None
    }
}

impl ConfigV1 {
    /// Checks the configuration: the template suffix must be a dot followed
    /// by at least one character.
    pub fn validate(&self) -> (r: Result<()>)
        ensures
            match suffix_problem(self.template_suffix@) {
                None => r is Ok,
                Some(m) => r matches Err(Error::ConfigValidation(msg)) && msg@ == m,
            },
    {
        let suffix = chars_of(self.template_suffix.as_str());
        if suffix.len() == 0 {
            return Err(Error::ConfigValidation(String::from_str("template_suffix must not be empty")));
        }
        if suffix[0] != '.' || suffix.len() < 2 {
            return Err(
                Error::ConfigValidation(
                    String::from_str(
                        "template_suffix must start with '.' and have at least 1 character after it",
                    ),
                ),
            );
        }
        Ok(())
    }

    /// The directory the import globs are relative to: the configured
    /// import root (joined onto `template_root` when relative), else the
    /// template directory itself.
    pub fn import_dir(&self, template_root: &str) -> (r: String)
        ensures
            r@ == match self.import_root {
                Some(d) => path_join(template_root@, d@),
                None => template_root@,
            },
    {
        match &self.import_root {
            Some(d) => path_join_exec(template_root, d.as_str()),
            None => String::from_str(template_root),
        }
    }
}

/// The file names a configuration is looked for under, joined by `", "`.
pub open spec fn config_files_text() -> Seq<char> {
    CONFIG_FILENAMES[0]@ + ", "@ + CONFIG_FILENAMES[1]@ + ", "@ + CONFIG_FILENAMES[2]@
}

impl Config {
    /// The error reported when no configuration file exists in `template_dir`.
    pub fn not_found(template_dir: &str) -> (r: Error)
        ensures
            r matches Error::ConfigNotFound { template_dir: d, config_files: f } && d@
                == template_dir@ && f@ == config_files_text(),
    {
        let mut files = String::from_str(CONFIG_FILENAMES[0]);
        push_str(&mut files, ", ");
        push_str(&mut files, CONFIG_FILENAMES[1]);
        push_str(&mut files, ", ");
        push_str(&mut files, CONFIG_FILENAMES[2]);
        Error::ConfigNotFound { template_dir: String::from_str(template_dir), config_files: files }
    }
}

/// The first configuration file name, in the order `baker.json`,
/// `baker.yaml`, `baker.yml`, whose file is present.
pub open spec fn first_present(present: [bool; 3]) -> Option<int> {
    if present[0] {
        Some(0)
    } else if present[1] {
        Some(1)
    } else if present[2] {
        Some(2)
    } else {
        None
    }
}

impl Config {
    /// The configuration file to read in `template_dir`, given which of
    /// `baker.json`, `baker.yaml` and `baker.yml` are present there: the
    /// first present one, else the error that none is.
    pub fn pick_file(template_dir: &str, present: [bool; 3]) -> (r: Result<&'static str>)
        ensures
            match first_present(present) {
                Some(i) => r matches Ok(n) && n@ == CONFIG_FILENAMES[i]@,
                None => r matches Err(Error::ConfigNotFound { template_dir: d, config_files: f })
                    && d@ == template_dir@ && f@ == config_files_text(),
            },
    {
        if present[0] {
            Ok(CONFIG_FILENAMES[0])
        } else if present[1] {
            Ok(CONFIG_FILENAMES[1])
        } else if present[2] {
            Ok(CONFIG_FILENAMES[2])
        } else {
            Err(Self::not_found(template_dir))
        }
    }

    /// Whether a configuration file is read as JSON (`baker.json`); the
    /// others are YAML.
    pub fn is_json_file(file_name: &str) -> (r: bool)
        ensures
            r == (file_name@ == CONFIG_FILENAMES[0]@),
    {
        crate::text::str_eq(file_name, CONFIG_FILENAMES[0])
    }
}

/// Default template suffix.
pub fn get_default_template_suffix() -> (r: String)
    ensures
        r@ == DEFAULT_TEMPLATE_SUFFIX@,
{
    String::from_str(DEFAULT_TEMPLATE_SUFFIX)
}

/// Default import globs: none.
pub fn get_default_template_globs() -> (r: Vec<String>)
    ensures
        r@.len() == 0,
{
    Vec::new()
}

/// Default post-hook runner: run the hook file itself.
pub fn get_default_post_hook_runner() -> (r: Vec<String>)
    ensures
        r@.len() == 0,
{
    Vec::new()
}

/// Default post-hook file name.
pub fn get_default_post_hook_filename() -> (r: String)
    ensures
        r@ == DEFAULT_POST_HOOK@,
{
    String::from_str(DEFAULT_POST_HOOK)
}

/// Default pre-hook file name.
pub fn get_default_pre_hook_filename() -> (r: String)
    ensures
        r@ == DEFAULT_PRE_HOOK@,
{
    String::from_str(DEFAULT_PRE_HOOK)
}

/// Default pre-hook runner: run the hook file itself.
pub fn get_default_pre_hook_runner() -> (r: Vec<String>)
    ensures
        r@.len() == 0,
{
    Vec::new()
}

/// Default loop separator.
pub fn get_default_loop_separator() -> (r: String)
    ensures
        r@ == DEFAULT_LOOP_SEPARATOR@,
{
    String::from_str(DEFAULT_LOOP_SEPARATOR)
}

/// Default loop content separator.
pub fn get_default_loop_content_separator() -> (r: String)
    ensures
        r@ == DEFAULT_LOOP_CONTENT_SEPARATOR@,
{
    String::from_str(DEFAULT_LOOP_CONTENT_SEPARATOR)
}

/// Symbolic links are not followed by default.
pub fn get_default_follow_symlinks() -> (r: bool)
    ensures
        !r,
{
    false
}

/// The default template suffix passes validation.
pub proof fn law_default_suffix_is_valid()
    ensures
        suffix_problem(DEFAULT_TEMPLATE_SUFFIX@) is None,
{
    reveal_strlit(".baker.j2");
}

} // verus!
