//! Command-line arguments of Baker, as plain data.
use vstd::prelude::*;

use crate::conflict::ConflictStyle;
use crate::constants::verbosity;

verus! {

/// Skip confirmation prompts for specific stages.
#[derive(Debug, Clone, Copy, PartialEq, Eq, Structural)]
pub enum SkipConfirm {
    /// Skip every confirmation prompt.
    All,
    /// Skip file overwrite confirmations.
    Overwrite,
    /// Skip hook execution confirmations.
    Hooks,
}

/// The lowercase name of a skip flag.
pub open spec fn skip_confirm_name(s: SkipConfirm) -> Seq<char> {
    match s {
        SkipConfirm::All => "all"@,
        SkipConfirm::Overwrite => "overwrite"@,
        SkipConfirm::Hooks => "hooks"@,
    }
}

impl SkipConfirm {
    /// The lowercase name of the flag, as written on the command line.
    pub fn to_string(&self) -> (r: String)
        ensures
            r@ == skip_confirm_name(*self),
    {
        match self {
            SkipConfirm::All => String::from_str("all"),
            SkipConfirm::Overwrite => String::from_str("overwrite"),
            SkipConfirm::Hooks => String::from_str("hooks"),
        }
    }
}

/// Logging level filter.
#[derive(Debug, Clone, Copy, PartialEq, Eq, Structural)]
pub enum LevelFilter {
    /// No logging.
    Off,
    /// Errors only.
    Error,
    /// Warnings and errors.
    Warn,
    /// Informational messages and above.
    Info,
    /// Debug messages and above.
    Debug,
    /// Everything.
    Trace,
}

/// The logging level selected by `verbose_count` `-v` flags.
pub open spec fn level_for_verbosity(verbose_count: u8) -> LevelFilter {
    if verbose_count == 0 {
        LevelFilter::Error
    } else if verbose_count == 1 {
        LevelFilter::Info
    } else if verbose_count == 2 {
        LevelFilter::Debug
    } else {
        LevelFilter::Trace
    }
}

/// Map `-v` counts to the appropriate log level.
pub fn get_log_level_from_verbose(verbose_count: u8) -> (r: LevelFilter)
    ensures
        r == level_for_verbosity(verbose_count),
{
    if verbose_count == verbosity::OFF {
        LevelFilter::Error
    } else if verbose_count == verbosity::INFO {
        LevelFilter::Info
    } else if verbose_count == verbosity::DEBUG {
        LevelFilter::Debug
    } else {
        LevelFilter::Trace
    }
}

/// Arguments for the `generate` subcommand.
#[derive(Debug)]
pub struct GenerateArgs {
    /// Template directory, Git repository, or installed template name.
    pub template: String,
    /// Destination directory for generated files.
    pub output_dir: String,
    /// Force overwrite of an existing output directory.
    pub force: bool,
    /// Predefined answers as JSON string or `-` to read from stdin.
    pub answers: Option<String>,
    /// Path to a JSON file containing predefined answers.
    pub answers_file: Option<String>,
    /// Confirmation prompts to skip (comma-separated).
    pub skip_confirms: Vec<SkipConfirm>,
    /// Disable interactive prompts when answers are provided.
    pub non_interactive: bool,
    /// Preview actions without touching the filesystem.
    pub dry_run: bool,
    /// Override the name of the generated-metadata file.
    pub generated_file: Option<String>,
    /// Override the conflict-marker style used during `baker update`.
    pub conflict_style: Option<ConflictStyle>,
}

/// Arguments for the `update` subcommand.
#[derive(Debug)]
pub struct UpdateArgs {
    /// Name of the generated-metadata file to read.
    pub generated_file: Option<String>,
    /// Extra answers as JSON string or `-` to read from stdin.
    pub answers: Option<String>,
    /// Path to a JSON file with extra answers.
    pub answers_file: Option<String>,
    /// Override the conflict-marker style.
    pub conflict_style: Option<ConflictStyle>,
    /// Preview actions without touching the filesystem.
    pub dry_run: bool,
    /// Confirmation prompts to skip.
    pub skip_confirms: Vec<SkipConfirm>,
    /// Disable interactive prompts when answers are provided.
    pub non_interactive: bool,
}

/// Arguments for the install command.
#[derive(Debug)]
pub struct InstallArgs {
    /// Git repository URL or local path to the template.
    pub source: String,
    /// Name for the installed template (defaults to repository/directory name).
    pub name: Option<String>,
    /// Description for the template.
    pub description: Option<String>,
    /// Overwrite if template already exists.
    pub force: bool,
}

/// Arguments for the remove command.
#[derive(Debug)]
pub struct RemoveArgs {
    /// Name of the template to remove.
    pub name: String,
}

/// Arguments for the info command.
#[derive(Debug)]
pub struct InfoArgs {
    /// Name of the template to show info for.
    pub name: String,
}

/// Baker subcommands.
#[derive(Debug)]
pub enum Commands {
    /// Generate a project from a template.
    Generate(GenerateArgs),
    /// Update an existing generated project when the template changes.
    Update(UpdateArgs),
    /// Install a template from a git repository or local path.
    Install(InstallArgs),
    /// List installed templates.
    List,
    /// Remove an installed template.
    Remove(RemoveArgs),
    /// Show information about an installed template.
    Info(InfoArgs),
    /// Start the MCP (Model Context Protocol) server.
    Mcp,
}

/// Baker - A project scaffolding tool: the parsed command line.
#[derive(Debug)]
pub struct Cli {
    /// Logging verbosity (`-v`, `-vv`, `-vvv`).
    pub verbose: u8,
    /// The subcommand, if one was given.
    pub command: Option<Commands>,
    /// Template directory, Git repository, or installed template name (legacy form).
    pub template: Option<String>,
    /// Destination directory for generated files (legacy form).
    pub output_dir: Option<String>,
    /// Force overwrite of an existing output directory.
    pub force: bool,
    /// Predefined answers as JSON string or `-` to read from stdin.
    pub answers: Option<String>,
    /// Path to a JSON file containing predefined answers.
    pub answers_file: Option<String>,
    /// Confirmation prompts to skip.
    pub skip_confirms: Vec<SkipConfirm>,
    /// Disable interactive prompts when answers are provided.
    pub non_interactive: bool,
    /// Preview actions without touching the filesystem.
    pub dry_run: bool,
}

/// CLI arguments of one generation run.
#[derive(Debug)]
pub struct Args {
    /// Template directory or Git repository.
    pub template: String,
    /// Destination directory for generated files.
    pub output_dir: String,
    /// Force overwrite of an existing output directory.
    pub force: bool,
    /// Verbosity level.
    pub verbose: u8,
    /// Predefined answers as JSON string or `-` to read from stdin.
    pub answers: Option<String>,
    /// Path to a JSON file containing predefined answers.
    pub answers_file: Option<String>,
    /// Confirmation prompts to skip.
    pub skip_confirms: Vec<SkipConfirm>,
    /// Disable interactive prompts when answers are provided.
    pub non_interactive: bool,
    /// Preview actions without touching the filesystem.
    pub dry_run: bool,
}

impl Args {
    /// The run arguments of a `generate` subcommand; the verbosity is set
    /// from the top-level flags afterwards.
    pub fn from_generate(args: GenerateArgs) -> (r: Args)
        ensures
            r.template == args.template,
            r.output_dir == args.output_dir,
            r.force == args.force,
            r.verbose == 0,
            r.answers == args.answers,
            r.answers_file == args.answers_file,
            r.skip_confirms == args.skip_confirms,
            r.non_interactive == args.non_interactive,
            r.dry_run == args.dry_run,
    {
        Args {
            template: args.template,
            output_dir: args.output_dir,
            force: args.force,
            verbose: 0,
            answers: args.answers,
            answers_file: args.answers_file,
            skip_confirms: args.skip_confirms,
            non_interactive: args.non_interactive,
            dry_run: args.dry_run,
        }
    }

    /// The run arguments of the legacy form (positional template and output
    /// directory), or `None` when either is missing and help is shown instead.
    pub fn from_legacy(cli: Cli) -> (r: Option<Args>)
        ensures
            (cli.template is Some && cli.output_dir is Some) <==> r is Some,
            r matches Some(a) ==> a.template == cli.template->0 && a.output_dir
                == cli.output_dir->0 && a.force == cli.force && a.verbose == cli.verbose
                && a.answers == cli.answers && a.answers_file == cli.answers_file
                && a.skip_confirms == cli.skip_confirms && a.non_interactive
                == cli.non_interactive && a.dry_run == cli.dry_run,
    {
        match (cli.template, cli.output_dir) {
            (Some(template), Some(output_dir)) => Some(
                Args {
                    template,
                    output_dir,
                    force: cli.force,
                    verbose: cli.verbose,
                    answers: cli.answers,
                    answers_file: cli.answers_file,
                    skip_confirms: cli.skip_confirms,
                    non_interactive: cli.non_interactive,
                    dry_run: cli.dry_run,
                },
            ),
            _ => None,
        }
    }
}

/// The flags include `flag`.
pub open spec fn has_flag(flags: Seq<SkipConfirm>, flag: SkipConfirm) -> bool {
    flags.contains(flag)
}

/// The flags include `flag`.
pub fn contains_flag(flags: &[SkipConfirm], flag: SkipConfirm) -> (r: bool)
    ensures
        r == has_flag(flags@, flag),
{
    let mut i: usize = 0;
    while i < flags.len()
        invariant
            i <= flags@.len(),
            forall|j: int| 0 <= j < i ==> flags@[j] != flag,
        decreases flags@.len() - i,
    {
        if flags[i] == flag {
            return true;
        }
        i += 1;
    }
    false
}

/// File overwrite prompts are skipped (`all` or `overwrite` given).
pub open spec fn skips_overwrite(flags: Seq<SkipConfirm>) -> bool {
    has_flag(flags, SkipConfirm::All) || has_flag(flags, SkipConfirm::Overwrite)
}

/// Hook execution prompts are skipped (`all` or `hooks` given).
pub open spec fn skips_hooks(flags: Seq<SkipConfirm>) -> bool {
    has_flag(flags, SkipConfirm::All) || has_flag(flags, SkipConfirm::Hooks)
}

/// Whether overwrite prompts are skipped for these flags.
pub fn should_skip_overwrite(flags: &[SkipConfirm]) -> (r: bool)
    ensures
        r == skips_overwrite(flags@),
{
    contains_flag(flags, SkipConfirm::All) || contains_flag(flags, SkipConfirm::Overwrite)
}

/// Whether hook prompts are skipped for these flags.
pub fn should_skip_hooks(flags: &[SkipConfirm]) -> (r: bool)
    ensures
        r == skips_hooks(flags@),
{
    contains_flag(flags, SkipConfirm::All) || contains_flag(flags, SkipConfirm::Hooks)
}

/// `--skip-confirms all` skips every confirmation prompt: overwrite prompts
/// and hook prompts alike, whatever else is given.
pub proof fn law_all_skips_every_prompt(flags: Seq<SkipConfirm>)
    requires
        flags.contains(SkipConfirm::All),
    ensures
        skips_overwrite(flags),
        skips_hooks(flags),
{
}

impl UpdateArgs {
    /// The conflict-marker style of the update: the one asked for, else
    /// the default style (git).
    pub fn effective_conflict_style(&self) -> (r: ConflictStyle)
        ensures
            r == match self.conflict_style {
                Some(s) => s,
                None => ConflictStyle::Git,
            },
    {
        match self.conflict_style {
            Some(s) => s,
            None => ConflictStyle::default(),
        }
    }
}

} // verus!
