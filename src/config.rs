//! The run's settings: what a configuration file gives, and how the command line
//! overrides it.

use vstd::prelude::*;

verus! {

/// The settings that steer a run.
#[derive(Debug, Clone, Copy, PartialEq, Eq, Structural)]
pub struct GrowseConfig {
    /// Qualify the link with a branch.
    pub use_branch: bool,
    /// Print the link instead of opening it.
    pub no_show: bool,
    /// Trace what is resolved.
    pub verbose: bool,
    /// The branch is the one checked out.
    pub current_branch: bool,
}

/// What the command line gives, as plain values; an absent flag is `None`.
#[derive(Debug, Clone)]
pub struct CliOptions {
    /// The file, optionally followed by `:<line>`.
    pub path: Option<String>,
    pub no_show: Option<bool>,
    pub verbose: Option<bool>,
    /// The branch named on the command line.
    pub branch: Option<String>,
    /// The remote named on the command line.
    pub remote: Option<String>,
    /// The configuration file named on the command line.
    pub config_file: Option<String>,
    pub current_branch: Option<bool>,
}

/// The settings of `config` with the command line laid over them.
pub open spec fn merged(cli: CliOptions, config: GrowseConfig) -> GrowseConfig {
    let current_branch = match cli.current_branch {
        Some(b) => b,
        None => false,
    };
    GrowseConfig {
        use_branch: cli.branch is Some || current_branch,
        no_show: match cli.no_show {
            Some(b) => b,
            None => config.no_show,
        },
        verbose: match cli.verbose {
            Some(b) => b,
            None => config.verbose,
        },
        current_branch,
    }
}

/// The settings of `config` with the command line laid over them: the command line
/// decides the branch mode, and its `no_show` and `verbose` flags win where given.
pub fn merge_config_cli(cli: &CliOptions, config: &GrowseConfig) -> (r: GrowseConfig)
    ensures
        r == merged(*cli, *config),
{
    let current_branch = match cli.current_branch {
        Some(b) => b,
        None => false,
    };
    GrowseConfig {
        use_branch: cli.branch.is_some() || current_branch,
        no_show: match cli.no_show {
            Some(b) => b,
            None => config.no_show,
        },
        verbose: match cli.verbose {
            Some(b) => b,
            None => config.verbose,
        },
        current_branch,
    }
}

/// The settings where no configuration file exists: the command line alone, with
/// every absent flag off.
pub fn config_from_cli(cli: &CliOptions) -> (r: GrowseConfig)
    ensures
        r == merged(
            *cli,
            (GrowseConfig { use_branch: false, no_show: false, verbose: false, current_branch: false }),
        ),
{
    let none = GrowseConfig { use_branch: false, no_show: false, verbose: false, current_branch: false };
    merge_config_cli(cli, &none)
}

/// The settings of a run: those of the configuration file, where one was found, with
/// the command line laid over them; else the command line alone.
pub fn config_for(cli: &CliOptions, file: Option<GrowseConfig>) -> (r: GrowseConfig)
    ensures
        file matches Some(c) ==> r == merged(*cli, c),
        file is None ==> r == merged(
            *cli,
            (GrowseConfig { use_branch: false, no_show: false, verbose: false, current_branch: false }),
        ),
{
    match file {
        Some(c) => merge_config_cli(cli, &c),
        None => config_from_cli(cli),
    }
}

} // verus!
