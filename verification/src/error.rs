//! Error types of the library.
//!
//! Errors raised by outside code (parsers, the file system, the template
//! engine, ...) are carried as their message text.
use vstd::prelude::*;

use crate::text::push_str;

verus! {

/// Represents all possible errors that can occur in Baker
#[derive(Debug, Clone, PartialEq, Eq)]
pub enum Error {
    /// A configuration value is not acceptable.
    ConfigValidation(String),
    /// None of the configuration files exists in the template directory.
    ConfigNotFound { template_dir: String, config_files: String },
    /// An interactive prompt failed.
    DialoguerError(String),
    /// JSON text could not be parsed or produced.
    JSONParseError(String),
    /// YAML text could not be parsed or produced.
    YAMLParseError(String),
    /// A glob pattern could not be parsed.
    GlobSetParseError(String),
    /// An input/output operation failed.
    IoError(String),
    /// Walking a directory tree failed.
    WalkdirError(String),
    /// A git operation failed.
    Git2Error(String),
    /// Rendering a template failed.
    MinijinjaError(String),
    /// A hook script exited with a failure status.
    HookExecutionError { script: String, status: String },
    /// The output directory exists and overwriting it was not requested.
    OutputDirectoryExistsError { output_dir: String },
    /// The template directory does not exist.
    TemplateDoesNotExistsError { template_dir: String },
    /// A template path could not be processed.
    ProcessError { source_path: String, e: String },
    /// The generated-metadata file is missing.
    GeneratedFileNotFound { path: String },
    /// Answers given to override saved answers are not a JSON object.
    AnswersNotObject,
    /// Any other failure, with its message.
    Other(String),
}

/// Standard Result type for Baker operations
pub type Result<T, E = Error> = core::result::Result<T, E>;

/// The message shown for an error.
pub open spec fn error_message(e: Error) -> Seq<char> {
    match e {
        Error::ConfigValidation(m) => "Config validation failed: "@ + m@,
        Error::ConfigNotFound { template_dir, config_files } => "Configuration file not found in '"@
            + template_dir@ + "'. Expected one of: "@ + config_files@,
        Error::DialoguerError(m) => "Dialoguer error: "@ + m@,
        Error::JSONParseError(m) => "Failed to parse JSON: "@ + m@,
        Error::YAMLParseError(m) => "Failed to parse YAML: "@ + m@,
        Error::GlobSetParseError(m) => "Failed to parse glob pattern in .bakerignore file: "@ + m@,
        Error::IoError(m) => "IO operation failed: "@ + m@,
        Error::WalkdirError(m) => "File system traversal failed: "@ + m@,
        Error::Git2Error(m) => "Git operation failed: "@ + m@,
        Error::MinijinjaError(m) => "Template rendering failed: "@ + m@,
        Error::HookExecutionError { script, status } => "Hook script '"@ + script@
            + "' failed with exit code: "@ + status@,
        Error::OutputDirectoryExistsError { output_dir } => "Output directory '"@ + output_dir@
            + "' already exists. Use --force to overwrite it."@,
        Error::TemplateDoesNotExistsError { template_dir } => "Template directory '"@
            + template_dir@ + "' does not exist"@,
        Error::ProcessError { source_path, e } => "Cannot process path '"@ + source_path@ + "': "@
            + e@,
        Error::GeneratedFileNotFound { path } => "Generated metadata file not found: "@ + path@,
        Error::AnswersNotObject => "Answers must be a JSON object"@,
        Error::Other(m) => m@,
    }
}

impl Error {
    /// The message shown for this error.
    pub fn to_string(&self) -> (r: String)
        ensures
            r@ == error_message(*self),
    {
        let mut out = String::new();
        match self {
            Error::ConfigValidation(m) => {
                push_str(&mut out, "Config validation failed: ");
                push_str(&mut out, m.as_str());
            },
            Error::ConfigNotFound { template_dir, config_files } => {
                push_str(&mut out, "Configuration file not found in '");
                push_str(&mut out, template_dir.as_str());
                push_str(&mut out, "'. Expected one of: ");
                push_str(&mut out, config_files.as_str());
            },
            Error::DialoguerError(m) => {
                push_str(&mut out, "Dialoguer error: ");
                push_str(&mut out, m.as_str());
            },
            Error::JSONParseError(m) => {
                push_str(&mut out, "Failed to parse JSON: ");
                push_str(&mut out, m.as_str());
            },
            Error::YAMLParseError(m) => {
                push_str(&mut out, "Failed to parse YAML: ");
                push_str(&mut out, m.as_str());
            },
            Error::GlobSetParseError(m) => {
                push_str(&mut out, "Failed to parse glob pattern in .bakerignore file: ");
                push_str(&mut out, m.as_str());
            },
            Error::IoError(m) => {
                push_str(&mut out, "IO operation failed: ");
                push_str(&mut out, m.as_str());
            },
            Error::WalkdirError(m) => {
                push_str(&mut out, "File system traversal failed: ");
                push_str(&mut out, m.as_str());
            },
            Error::Git2Error(m) => {
                push_str(&mut out, "Git operation failed: ");
                push_str(&mut out, m.as_str());
            },
            Error::MinijinjaError(m) => {
                push_str(&mut out, "Template rendering failed: ");
                push_str(&mut out, m.as_str());
            },
            Error::HookExecutionError { script, status } => {
                push_str(&mut out, "Hook script '");
                push_str(&mut out, script.as_str());
                push_str(&mut out, "' failed with exit code: ");
                push_str(&mut out, status.as_str());
            },
            Error::OutputDirectoryExistsError { output_dir } => {
                push_str(&mut out, "Output directory '");
                push_str(&mut out, output_dir.as_str());
                push_str(&mut out, "' already exists. Use --force to overwrite it.");
            },
            Error::TemplateDoesNotExistsError { template_dir } => {
                push_str(&mut out, "Template directory '");
                push_str(&mut out, template_dir.as_str());
                push_str(&mut out, "' does not exist");
            },
            Error::ProcessError { source_path, e } => {
                push_str(&mut out, "Cannot process path '");
                push_str(&mut out, source_path.as_str());
                push_str(&mut out, "': ");
                push_str(&mut out, e.as_str());
            },
            Error::GeneratedFileNotFound { path } => {
                push_str(&mut out, "Generated metadata file not found: ");
                push_str(&mut out, path.as_str());
            },
            Error::AnswersNotObject => {
                push_str(&mut out, "Answers must be a JSON object");
            },
            Error::Other(m) => {
                push_str(&mut out, m.as_str());
            },
        }
        out
    }
}

} // verus!
