//! Command-line model and the decisions of a generation or update run.
use vstd::prelude::*;

/// Command-line arguments.
pub mod args;
/// Collecting answers.
pub mod answers;
/// The state shared by the steps of a run.
pub mod context;
/// Hook scripts.
pub mod hooks;
/// The metadata file of a generated project.
pub mod metadata;
/// What happens to each template entry.
pub mod processor;
/// The decisions of a generation run.
pub mod runner;
/// The decisions of an update run.
pub mod update;

pub use args::{
    get_log_level_from_verbose, Args, Cli, Commands, GenerateArgs, InfoArgs, InstallArgs,
    LevelFilter, RemoveArgs, SkipConfirm, UpdateArgs,
};

verus! {
} // verus!
