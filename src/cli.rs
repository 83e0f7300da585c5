//! Command line resolution: the parsed options become one command and the
//! program's context, with defaults, environment and exclusions applied.
use vstd::prelude::*;

use crate::config::{
    at_most_one_reference, collect_entries, collect_hooks, git_reference_of, EditPlugin,
    GitProtocol, GitReference, RawPlugin, Shell,
};
use crate::context::{output_of, ColorChoice, Context, Output};
use crate::lock::{lock_mode_of_lock_flags, lock_mode_of_source_flags, LockMode};
use crate::paths::{
    config_paths, data_dir_of, join, lock_file_path, lock_file_name, opt_chars, path_join,
    resolve_paths, PathError, CLONE_DIR_NAME, DOWNLOAD_DIR_NAME,
};

verus! {

/// The message of a home directory that cannot be determined.
pub const HOME_ERROR_MESSAGE: &'static str = "failed to determine the current user's home directory";

/// A shell that completions can be generated for.
#[derive(Clone, Copy, Debug, PartialEq, Eq)]
pub enum CompletionShell {
    Bash,
    Elvish,
    Fish,
    PowerShell,
    Zsh,
}

/// The options of the `add` subcommand, as parsed.
#[derive(Clone, Debug, PartialEq, Eq)]
pub struct Add {
    /// A unique name for the plugin.
    pub name: String,
    /// A Git repository URL.
    pub git: Option<String>,
    /// A GitHub Gist identifier.
    pub gist: Option<String>,
    /// A GitHub repository as `owner/name`.
    pub github: Option<String>,
    /// A remote file URL.
    pub remote: Option<String>,
    /// A local directory.
    pub local: Option<String>,
    /// The protocol for Gist and GitHub sources.
    pub proto: Option<GitProtocol>,
    /// A branch to check out.
    pub branch: Option<String>,
    /// A commit to check out.
    pub rev: Option<String>,
    /// A tag to check out.
    pub tag: Option<String>,
    /// The directory in the source that holds the plugin.
    pub dir: Option<String>,
    /// Which files to use.
    pub uses: Option<Vec<String>>,
    /// The templates to apply.
    pub apply: Option<Vec<String>>,
    /// The profiles that the plugin is used in.
    pub profiles: Option<Vec<String>>,
    /// Hooks as name and body, in the order given.
    pub hooks: Option<Vec<(String, String)>>,
}

/// The subcommand, as parsed.
#[derive(Clone, Debug, PartialEq, Eq)]
pub enum RawCommand {
    Init { shell: Option<Shell> },
    Add(Box<Add>),
    Edit,
    Remove { name: String },
    Lock { update: bool, reinstall: bool },
    Source { relock: bool, update: bool, reinstall: bool },
    Completions { shell: CompletionShell },
    Version,
}

/// The command line options, as parsed.
#[derive(Clone, Debug, PartialEq, Eq)]
pub struct RawOpt {
    pub quiet: bool,
    pub non_interactive: bool,
    pub verbose: bool,
    pub color: ColorChoice,
    pub data_dir: Option<String>,
    pub config_dir: Option<String>,
    pub config_file: Option<String>,
    pub profile: Option<String>,
    pub command: RawCommand,
}

impl RawOpt {
    /// No two options that exclude each other are both set.
    pub open spec fn wf(&self) -> bool {
        &&& !(self.quiet && self.verbose)
        &&& match self.command {
            RawCommand::Add(add) => at_most_one_reference(add.branch, add.rev, add.tag),
            RawCommand::Lock { update, reinstall } => !(update && reinstall),
            RawCommand::Source { update, reinstall, .. } => !(update && reinstall),
            _ => true,
        }
    }

    /// Whether no two options that exclude each other are both set.
    pub fn is_wf(&self) -> (r: bool)
        ensures
            r == self.wf(),
    {
        if self.quiet && self.verbose {
            return false;
        }
        match &self.command {
            RawCommand::Add(add) => {
                let b = add.branch.is_some();
                let v = add.rev.is_some();
                let t = add.tag.is_some();
                !(b && v) && !(b && t) && !(v && t)
            },
            RawCommand::Lock { update, reinstall } => !(*update && *reinstall),
            RawCommand::Source { update, reinstall, .. } => !(*update && *reinstall),
            _ => true,
        }
    }
}

/// What the program reads from its environment.
#[derive(Clone, Debug, PartialEq, Eq)]
pub struct Environment {
    /// The current user's home directory, if it can be determined.
    pub home: Option<String>,
    /// The XDG config base directory, where set.
    pub config_home: Option<String>,
    /// The XDG data base directory, where set.
    pub data_home: Option<String>,
    /// Whether standard error is a terminal.
    pub stderr_is_terminal: bool,
    /// The program's version.
    pub version: String,
}

/// Resolved command line options with defaults set.
#[derive(Clone, Debug, PartialEq, Eq)]
pub struct Opt {
    /// Global context for use across the entire program.
    pub ctx: Context,
    /// The subcommand.
    pub command: Command,
}

/// The resolved command.
#[derive(Clone, Debug, PartialEq, Eq)]
pub enum Command {
    /// Initialize a new config file.
    Init { shell: Option<Shell> },
    /// Add a new plugin to the config file.
    Add { name: String, plugin: Box<EditPlugin> },
    /// Open up the config file in the default editor.
    Edit,
    /// Remove a plugin from the config file.
    Remove { name: String },
    /// Install the plugins sources and generate the lock file.
    Lock,
    /// Generate and print out the script.
    Source,
}

/// What the command line asks for.
#[derive(Clone, Debug, PartialEq, Eq)]
pub enum Resolution {
    /// Run a command in a context.
    Run(Opt),
    /// Print shell completions and exit.
    Completions { shell: CompletionShell },
    /// Print the version and exit.
    Version,
}

/// An environment in which the program cannot start.
#[derive(Clone, Debug, PartialEq, Eq)]
pub enum StartupError {
    /// The home directory cannot be determined.
    HomeDir,
    /// The config file has no parent directory.
    Path(PathError),
}

impl StartupError {
    /// The text of the error message.
    pub open spec fn message_of(self) -> Seq<char> {
        match self {
            StartupError::HomeDir => HOME_ERROR_MESSAGE@,
            StartupError::Path(e) => PathError::message_of(e.path@),
        }
    }

    /// A human-readable message.
    pub fn message(&self) -> (r: String)
        ensures
            r@ == self.message_of(),
    {
        match self {
            StartupError::HomeDir => String::from_str(HOME_ERROR_MESSAGE),
            StartupError::Path(e) => e.message(),
        }
    }
}

/// `plugin` is the plugin that the `add` options describe, named `name`.
pub open spec fn plugin_of_add(add: Add, name: String, plugin: RawPlugin) -> bool {
    &&& name == add.name
    &&& plugin.git == add.git
    &&& plugin.gist == add.gist
    &&& plugin.github == add.github
    &&& plugin.remote == add.remote
    &&& plugin.local == add.local
    &&& plugin.inline is None
    &&& plugin.proto == add.proto
    &&& plugin.reference == git_reference_of(add.branch, add.rev, add.tag)
    &&& plugin.dir == add.dir
    &&& plugin.uses == add.uses
    &&& plugin.apply == add.apply
    &&& plugin.profiles == add.profiles
    &&& match add.hooks {
        Some(h) => plugin.hooks matches Some(ph) && ph@ == collect_entries(h@),
        None => plugin.hooks is None,
    }
}

impl EditPlugin {
    /// The name and plugin that the `add` options describe; at most one Git
    /// reference option may be set.
    pub fn from_add(add: Add) -> (r: (String, Self))
        requires
            at_most_one_reference(add.branch, add.rev, add.tag),
        ensures
            plugin_of_add(add, r.0, r.1.inner),
    {
        let Add {
            name,
            git,
            gist,
            github,
            remote,
            local,
            proto,
            branch,
            rev,
            tag,
            dir,
            uses,
            apply,
            profiles,
            hooks,
        } = add;
        let hooks = match hooks {
            Some(h) => Some(collect_hooks(h)),
            None => None,
        };
        let reference = GitReference::from_options(branch, rev, tag);
        (
            name,
            Self::from_raw(
                RawPlugin {
                    git,
                    gist,
                    github,
                    remote,
                    local,
                    inline: None,
                    proto,
                    reference,
                    dir,
                    uses,
                    apply,
                    profiles,
                    hooks,
                },
            ),
        )
    }
}

/// `command` is the command that the parsed subcommand `raw` resolves to.
pub open spec fn command_of_raw(raw: RawCommand, command: Command) -> bool {
    match raw {
        RawCommand::Init { shell } => command == Command::Init { shell },
        RawCommand::Add(add) => command matches Command::Add { name, plugin } && plugin_of_add(
            *add,
            name,
            plugin.inner,
        ),
        RawCommand::Edit => command == Command::Edit,
        RawCommand::Remove { name } => command == Command::Remove { name },
        RawCommand::Lock { .. } => command == Command::Lock,
        RawCommand::Source { .. } => command == Command::Source,
        RawCommand::Completions { .. } => false,
        RawCommand::Version => false,
    }
}

/// The lock mode that the parsed subcommand sets, if any.
pub open spec fn lock_mode_of(raw: RawCommand) -> Option<LockMode> {
    match raw {
        RawCommand::Lock { update, reinstall } => Some(lock_mode_of_lock_flags(update, reinstall)),
        RawCommand::Source { relock, update, reinstall } => lock_mode_of_source_flags(
            relock,
            update,
            reinstall,
        ),
        _ => None,
    }
}

/// `ctx` is the context of the options `raw` in the environment `env`, with
/// the home directory `home`.
pub open spec fn context_of(raw: RawOpt, env: Environment, home: String, ctx: Context) -> bool {
    let data_dir = data_dir_of(home@, opt_chars(env.data_home), opt_chars(raw.data_dir));
    &&& config_paths(
        home@,
        opt_chars(env.config_home),
        opt_chars(raw.config_dir),
        opt_chars(raw.config_file),
    ) matches Some((config_dir, config_file)) && ctx.config_dir@ == config_dir
        && ctx.config_file@ == config_file
    &&& ctx.data_dir@ == data_dir
    &&& ctx.lock_file@ == path_join(data_dir, lock_file_name(opt_chars(raw.profile)))
    &&& ctx.clone_dir@ == path_join(data_dir, CLONE_DIR_NAME@)
    &&& ctx.download_dir@ == path_join(data_dir, DOWNLOAD_DIR_NAME@)
    &&& ctx.version == env.version
    &&& ctx.home == home
    &&& ctx.profile == raw.profile
    &&& ctx.output == output_of(raw.quiet, raw.verbose, raw.color, env.stderr_is_terminal)
    &&& ctx.interactive == !raw.non_interactive
    &&& ctx.lock_mode == lock_mode_of(raw.command)
}

/// `r` is what the options `raw` resolve to in the environment `env`: the
/// completions and version actions first, then a failure where the home
/// directory is unknown or the config file has no parent, else a command and
/// its context.
pub open spec fn resolution_of(raw: RawOpt, env: Environment, r: Result<Resolution, StartupError>) -> bool {
    match raw.command {
        RawCommand::Completions { shell } => r == Ok::<Resolution, StartupError>(
            Resolution::Completions { shell },
        ),
        RawCommand::Version => r == Ok::<Resolution, StartupError>(Resolution::Version),
        _ => match env.home {
            None => r == Err::<Resolution, StartupError>(StartupError::HomeDir),
            Some(home) => match config_paths(
                home@,
                opt_chars(env.config_home),
                opt_chars(raw.config_dir),
                opt_chars(raw.config_file),
            ) {
                None => r matches Err(StartupError::Path(e)) && Some(e.path) == raw.config_file,
                Some(_) => r matches Ok(Resolution::Run(opt)) && command_of_raw(
                    raw.command,
                    opt.command,
                ) && context_of(raw, env, home, opt.ctx),
            },
        },
    }
}

impl Opt {
    /// Resolves the parsed options in the given environment.
    pub fn from_raw_opt(raw_opt: RawOpt, env: Environment) -> (r: Result<Resolution, StartupError>)
        requires
            raw_opt.wf(),
        ensures
            resolution_of(raw_opt, env, r),
    {
        let ghost raw = raw_opt;
        let RawOpt {
            quiet,
            non_interactive,
            verbose,
            color,
            data_dir,
            config_dir,
            config_file,
            profile,
            command,
        } = raw_opt;

        let mut lock_mode: Option<LockMode> = None;

        let command = match command {
            RawCommand::Init { shell } => Command::Init { shell },
            RawCommand::Add(add) => {
                let (name, plugin) = EditPlugin::from_add(*add);
                Command::Add { name, plugin: Box::new(plugin) }
            },
            RawCommand::Edit => Command::Edit,
            RawCommand::Remove { name } => Command::Remove { name },
            RawCommand::Lock { update, reinstall } => {
                lock_mode = LockMode::from_lock_flags(update, reinstall);
                Command::Lock
            },
            RawCommand::Source { relock, update, reinstall } => {
                lock_mode = LockMode::from_source_flags(relock, update, reinstall);
                Command::Source
            },
            RawCommand::Completions { shell } => {
                return Ok(Resolution::Completions { shell });
            },
            RawCommand::Version => {
                return Ok(Resolution::Version);
            },
        };

        let output = Output::from_flags(quiet, verbose, color, env.stderr_is_terminal);

        let Environment { home, config_home, data_home, stderr_is_terminal: _, version } = env;
        let home = match home {
            Some(home) => home,
            None => {
                return Err(StartupError::HomeDir);
            },
        };

        let (config_dir, data_dir, config_file) = match resolve_paths(
            home.as_str(),
            &config_home,
            &data_home,
            config_dir,
            data_dir,
            config_file,
        ) {
            Ok(paths) => paths,
            Err(e) => {
                return Err(StartupError::Path(e));
            },
        };
        let lock_file = lock_file_path(data_dir.as_str(), &profile);
        let clone_dir = join(data_dir.as_str(), CLONE_DIR_NAME);
        let download_dir = join(data_dir.as_str(), DOWNLOAD_DIR_NAME);

        let ctx = Context {
            version,
            home,
            config_dir,
            data_dir,
            config_file,
            lock_file,
            clone_dir,
            download_dir,
            profile,
            output,
            interactive: !non_interactive,
            lock_mode,
        };

        Ok(Resolution::Run(Opt { ctx, command }))
    }
}

/// Resolves the parsed command line options in the given environment: the
/// command to run and its context, an action that ends the program at once,
/// or the reason why the program cannot start.
pub fn from_args(raw_opt: RawOpt, env: Environment) -> (r: Result<Resolution, StartupError>)
    requires
        raw_opt.wf(),
    ensures
        resolution_of(raw_opt, env, r),
{
    Opt::from_raw_opt(raw_opt, env)
}

} // verus!
