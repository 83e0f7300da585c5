//! The program's context, built once at startup and read everywhere after.
use vstd::prelude::*;

use crate::lock::LockMode;

verus! {

/// How much output the program writes.
#[derive(Clone, Copy, Debug, PartialEq, Eq)]
pub enum Verbosity {
    Quiet,
    Normal,
    Verbose,
}

/// Whether to color the output.
#[derive(Clone, Copy, Debug, PartialEq, Eq)]
pub enum ColorChoice {
    /// Color where standard error is a terminal.
    Auto,
    /// Always color.
    Always,
    /// Never color.
    Never,
}

/// Whether `choice` colors the output, given whether standard error is a terminal.
pub open spec fn is_color_of(choice: ColorChoice, stderr_is_terminal: bool) -> bool {
    match choice {
        ColorChoice::Auto => stderr_is_terminal,
        ColorChoice::Always => true,
        ColorChoice::Never => false,
    }
}

impl ColorChoice {
    /// Whether to color the output, given whether standard error is a terminal.
    pub fn is_color(self, stderr_is_terminal: bool) -> (r: bool)
        ensures
            r == is_color_of(self, stderr_is_terminal),
    {
        match self {
            ColorChoice::Auto => stderr_is_terminal,
            ColorChoice::Always => true,
            ColorChoice::Never => false,
        }
    }
}

/// The verbosity of the quiet and verbose flags: quiet wins over verbose,
/// verbose over the default.
pub open spec fn verbosity_of(quiet: bool, verbose: bool) -> Verbosity {
    if quiet {
        Verbosity::Quiet
    } else if verbose {
        Verbosity::Verbose
    } else {
        Verbosity::Normal
    }
}

impl Verbosity {
    /// The verbosity of the quiet and verbose flags, which never come together.
    pub fn from_flags(quiet: bool, verbose: bool) -> (r: Self)
        requires
            !(quiet && verbose),
        ensures
            r == verbosity_of(quiet, verbose),
            quiet ==> r == Verbosity::Quiet,
            verbose ==> r == Verbosity::Verbose,
            !quiet && !verbose ==> r == Verbosity::Normal,
    {
        if quiet {
            Verbosity::Quiet
        } else if verbose {
            Verbosity::Verbose
        } else {
            Verbosity::Normal
        }
    }
}

/// The output policy.
#[derive(Clone, Copy, Debug, PartialEq, Eq)]
pub struct Output {
    /// How much to write.
    pub verbosity: Verbosity,
    /// Whether to write without color.
    pub no_color: bool,
}

/// The output policy of the global flags.
pub open spec fn output_of(quiet: bool, verbose: bool, color: ColorChoice, stderr_is_terminal: bool) -> Output {
    Output { verbosity: verbosity_of(quiet, verbose), no_color: !is_color_of(color, stderr_is_terminal) }
}

impl Output {
    /// The output policy of the quiet, verbose and color flags.
    pub fn from_flags(quiet: bool, verbose: bool, color: ColorChoice, stderr_is_terminal: bool) -> (r: Self)
        requires
            !(quiet && verbose),
        ensures
            r == output_of(quiet, verbose, color, stderr_is_terminal),
    {
        Output {
            verbosity: Verbosity::from_flags(quiet, verbose),
            no_color: !color.is_color(stderr_is_terminal),
        }
    }
}

/// With the quiet flag set the program is quiet, whatever the other flags say.
pub proof fn lemma_quiet_wins(verbose: bool, color: ColorChoice, stderr_is_terminal: bool)
    ensures
        output_of(true, verbose, color, stderr_is_terminal).verbosity == Verbosity::Quiet,
{
}

/// Settings for use across the whole program.
#[derive(Clone, Debug, PartialEq, Eq)]
pub struct Context {
    /// The program's version.
    pub version: String,
    /// The current user's home directory.
    pub home: String,
    /// The configuration directory.
    pub config_dir: String,
    /// The data directory.
    pub data_dir: String,
    /// The config file.
    pub config_file: String,
    /// The lock file.
    pub lock_file: String,
    /// The directory for cloned repositories.
    pub clone_dir: String,
    /// The directory for downloaded files.
    pub download_dir: String,
    /// The profile in use.
    pub profile: Option<String>,
    /// The output policy.
    pub output: Output,
    /// Whether the user may be asked questions.
    pub interactive: bool,
    /// How to lock, where the command locks.
    pub lock_mode: Option<LockMode>,
}

} // verus!
