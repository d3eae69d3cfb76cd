//! Constants used throughout the Baker application
use vstd::prelude::*;

/// Validation messages and defaults.
pub mod validation;
/// Exit codes.
pub mod exit_codes;
/// Verbosity levels.
pub mod verbosity;

verus! {

/// Number of configuration file names.
pub const CONFIG_FILENAMES_LEN: usize = 3;

/// Configuration file names in order of preference
pub const CONFIG_FILENAMES: [&'static str; 3] = ["baker.json", "baker.yaml", "baker.yml"];

/// Default template file suffix
pub const DEFAULT_TEMPLATE_SUFFIX: &'static str = ".baker.j2";

/// Default template file loop separator
pub const DEFAULT_LOOP_SEPARATOR: &'static str = "---";

/// Default template file loop content separator
pub const DEFAULT_LOOP_CONTENT_SEPARATOR: &'static str = "***+++***";

/// Default pre-hook filename
pub const DEFAULT_PRE_HOOK: &'static str = "pre";

/// Default post-hook filename
pub const DEFAULT_POST_HOOK: &'static str = "post";

/// Ignore file name
pub const IGNORE_FILE: &'static str = ".bakerignore";

/// STDIN indicator for CLI arguments
pub const STDIN_INDICATOR: &'static str = "-";

/// Default name of the generated-metadata file written into the output directory.
pub const DEFAULT_GENERATED_FILE_NAME: &'static str = ".baker-generated.yaml";

} // verus!
