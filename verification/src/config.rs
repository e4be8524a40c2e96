//! What one invocation was asked to do: the command line and the
//! environment, settled into one `Config`.
//!
//! The caller parses the command line and reads the environment; the rules
//! for weighing one against the other are here.

use vstd::prelude::*;
use vstd::string::StringExecFns;
use crate::text::{copy_texts, join_path, joined_path, same_text, text_of};

verus! {

/// The service root where neither the command line nor the environment
/// names one.
pub const DEFAULT_SVDIR: &'static str = "/var/service";

/// The root of the process table where the environment names none.
pub const DEFAULT_PROC_DIR: &'static str = "/proc";

/// The control program where the environment names none.
pub const DEFAULT_SV_PROG: &'static str = "sv";

/// The program that draws process trees where the environment names none.
pub const DEFAULT_PSTREE_PROG: &'static str = "pstree";

/// The service root of a user, as seen from the home directory.
pub const DEFAULT_USER_DIR: &'static str = "runit/service";

/// The variable that, when set, turns colour off.
pub const ENV_NO_COLOR: &'static str = "NO_COLOR";

/// The variable that names the service root.
pub const ENV_SVDIR: &'static str = "SVDIR";

/// The variable that names the root of the process table.
pub const ENV_PROC_DIR: &'static str = "PROC_DIR";

/// The variable that names the control program.
pub const ENV_SV_PROG: &'static str = "SV_PROG";

/// The variable that names the program that draws process trees.
pub const ENV_PSTREE_PROG: &'static str = "PSTREE_PROG";

/// The modes of execution, one for each kind of subcommand.
#[derive(Clone, Copy, Debug, PartialEq, Eq, Structural)]
pub enum ProgramMode {
    Status,
    Enable,
    Disable,
    External,
}

/// A subcommand with its own options and operands.
#[derive(Clone, Debug, PartialEq, Eq)]
pub enum Commands {
    Status { tree: bool, log: bool, filter: Vec<String> },
    Enable { services: Vec<String> },
    Disable { services: Vec<String> },
    /// Any other first word, with the words after it.
    External(Vec<String>),
}

/// The command line, parsed.
#[derive(Clone, Debug, PartialEq, Eq)]
pub struct Args {
    /// `yes`, `no` or `auto`, or one of their synonyms.
    pub color: Option<String>,
    /// The service root.
    pub dir: Option<String>,
    pub log: bool,
    pub tree: bool,
    /// Use the service root of the user.
    pub user: bool,
    pub verbose: usize,
    pub command: Option<Commands>,
}

/// What the environment holds of interest.
#[derive(Clone, Debug, PartialEq, Eq)]
pub struct Environment {
    /// The value of `PROC_DIR`.
    pub proc_dir: Option<String>,
    /// The value of `SV_PROG`.
    pub sv_prog: Option<String>,
    /// The value of `PSTREE_PROG`.
    pub pstree_prog: Option<String>,
    /// Whether `NO_COLOR` is set, to whatever value.
    pub no_color: bool,
    /// The value of `SVDIR`.
    pub svdir: Option<String>,
    /// The home directory of the user, if it can be told.
    pub home_dir: Option<String>,
    /// Whether standard output is a terminal.
    pub stdout_is_tty: bool,
}

/// The settings of one invocation.
#[derive(Debug, PartialEq, Eq)]
pub struct Config {
    pub proc_path: String,
    pub sv_prog: String,
    pub pstree_prog: String,
    pub colorize: bool,
    pub svdir: String,
    pub tree: bool,
    pub log: bool,
    pub verbose: usize,
    pub operands: Vec<String>,
    pub mode: ProgramMode,
}

/// Why no `Config` could be made.
#[derive(Debug, PartialEq, Eq)]
pub enum ConfigError {
    /// The colour option holds a word that is not known.
    UnknownColorOption(String),
    /// The service root of the user was asked for, and the home directory
    /// cannot be told.
    NoHomeDirectory,
}

/// A `Config` with its texts as characters.
pub struct ConfigView {
    pub proc_path: Seq<char>,
    pub sv_prog: Seq<char>,
    pub pstree_prog: Seq<char>,
    pub colorize: bool,
    pub svdir: Seq<char>,
    pub tree: bool,
    pub log: bool,
    pub verbose: usize,
    pub operands: Seq<Seq<char>>,
    pub mode: ProgramMode,
}

/// A `ConfigError` with its text as characters.
pub enum ConfigErrorView {
    UnknownColorOption(Seq<char>),
    NoHomeDirectory,
}

impl View for Config {
    type V = ConfigView;

    open spec fn view(&self) -> ConfigView {
        ConfigView {
            proc_path: self.proc_path@,
            sv_prog: self.sv_prog@,
            pstree_prog: self.pstree_prog@,
            colorize: self.colorize,
            svdir: self.svdir@,
            tree: self.tree,
            log: self.log,
            verbose: self.verbose,
            operands: self.operands.deep_view(),
            mode: self.mode,
        }
    }
}

impl View for ConfigError {
    type V = ConfigErrorView;

    open spec fn view(&self) -> ConfigErrorView {
        match self {
            ConfigError::UnknownColorOption(word) => ConfigErrorView::UnknownColorOption(word@),
            ConfigError::NoHomeDirectory => ConfigErrorView::NoHomeDirectory,
        }
    }
}

/// The view of a result whose two sides have views.
pub open spec fn result_view<T: View, E: View>(result: Result<T, E>) -> Result<T::V, E::V> {
    match result {
        Ok(value) => Ok(value@),
        Err(e) => Err(e@),
    }
}

impl ProgramMode {
    /// The name of the mode, as a model.
    pub open spec fn spec_label(self) -> Seq<char> {
        match self {
            ProgramMode::Status => "status"@,
            ProgramMode::Enable => "enable"@,
            ProgramMode::Disable => "disable"@,
            ProgramMode::External => "<external>"@,
        }
    }

    /// The name of the mode, as it is shown.
    pub fn label(&self) -> (text: String)
        ensures
            text@ == self.spec_label(),
    {
        match self {
            ProgramMode::Status => String::from_str("status"),
            ProgramMode::Enable => String::from_str("enable"),
            ProgramMode::Disable => String::from_str("disable"),
            ProgramMode::External => String::from_str("<external>"),
        }
    }
}

impl ConfigErrorView {
    /// What `message` says of this error.
    pub open spec fn message(self) -> Seq<char> {
        match self {
            ConfigErrorView::UnknownColorOption(word) => "unknown color option: '"@ + word + "'"@,
            ConfigErrorView::NoHomeDirectory => "failed to determine users home directory"@,
        }
    }
}

impl ConfigError {
    /// A line of text that says what went wrong.
    pub fn message(&self) -> (text: String)
        ensures
            text@ == self@.message(),
    {
        match self {
            ConfigError::UnknownColorOption(word) => String::from_str(
                "unknown color option: '",
            ).concat(word.as_str()).concat("'"),
            ConfigError::NoHomeDirectory => String::from_str(
                "failed to determine users home directory",
            ),
        }
    }
}

/// Whether output is coloured. The first of these that applies decides:
/// the colour option, where it is `yes`, `on` or `always` (coloured) or
/// `no`, `off` or `never` (plain); `NO_COLOR` in the environment (plain);
/// whether standard output is a terminal. The option `auto` decides
/// nothing, and any other word is an error.
pub open spec fn colorize_of(color: Option<Seq<char>>, no_color: bool, tty: bool) -> Result<
    bool,
    ConfigErrorView,
> {
    match color {
        Some(word) if word == "yes"@ || word == "on"@ || word == "always"@ => Ok(true),
        Some(word) if word == "no"@ || word == "off"@ || word == "never"@ => Ok(false),
        Some(word) if word != "auto"@ => Err(ConfigErrorView::UnknownColorOption(word)),
        _ => Ok(!no_color && tty),
    }
}

/// The service root. The first of these that applies decides: the
/// directory option; the user option, which gives `runit/service` under the
/// home directory and is an error where no home directory is known;
/// `SVDIR` in the environment; the default.
pub open spec fn svdir_of(
    dir: Option<Seq<char>>,
    user: bool,
    home: Option<Seq<char>>,
    env_svdir: Option<Seq<char>>,
) -> Result<Seq<char>, ConfigErrorView> {
    match dir {
        Some(d) => Ok(d),
        None => if user {
            match home {
                Some(h) => Ok(joined_path(h, DEFAULT_USER_DIR@)),
                None => Err(ConfigErrorView::NoHomeDirectory),
            }
        } else {
            match env_svdir {
                Some(d) => Ok(d),
                None => Ok(DEFAULT_SVDIR@),
            }
        },
    }
}

/// A text, or the default where there is none.
pub open spec fn text_or(text: Option<Seq<char>>, default: Seq<char>) -> Seq<char> {
    match text {
        Some(t) => t,
        None => default,
    }
}

/// Whether the tree view is on: by the option before the subcommand, or by
/// that of `status`.
pub open spec fn tree_of(args: Args) -> bool {
    args.tree || (args.command matches Some(Commands::Status { tree, .. }) && tree)
}

/// Whether log services are shown: by the option before the subcommand, or
/// by that of `status`.
pub open spec fn log_of(args: Args) -> bool {
    args.log || (args.command matches Some(Commands::Status { log, .. }) && log)
}

/// The mode that the command line asks for. An unknown subcommand asks for
/// `External`, unless the tree view or the log view is on: then it asks for
/// `Status`.
pub open spec fn mode_of(args: Args) -> ProgramMode {
    match args.command {
        None => ProgramMode::Status,
        Some(Commands::Status { .. }) => ProgramMode::Status,
        Some(Commands::Enable { .. }) => ProgramMode::Enable,
        Some(Commands::Disable { .. }) => ProgramMode::Disable,
        Some(Commands::External(_)) => if tree_of(args) || log_of(args) {
            ProgramMode::Status
        } else {
            ProgramMode::External
        },
    }
}

/// The operands of the subcommand; none where there is no subcommand.
pub open spec fn operands_of(args: Args) -> Seq<Seq<char>> {
    match args.command {
        None => Seq::empty(),
        Some(Commands::Status { filter, .. }) => filter.deep_view(),
        Some(Commands::Enable { services }) => services.deep_view(),
        Some(Commands::Disable { services }) => services.deep_view(),
        Some(Commands::External(words)) => words.deep_view(),
    }
}

/// The `Config` that a command line and an environment give. A colour
/// option that is not known is found before a home directory that is
/// missing.
pub open spec fn config_of(args: Args, env: Environment) -> Result<ConfigView, ConfigErrorView> {
    match colorize_of(text_of(args.color), env.no_color, env.stdout_is_tty) {
        Err(e) => Err(e),
        Ok(colorize) => match svdir_of(
            text_of(args.dir),
            args.user,
            text_of(env.home_dir),
            text_of(env.svdir),
        ) {
            Err(e) => Err(e),
            Ok(svdir) => Ok(
                ConfigView {
                    proc_path: text_or(text_of(env.proc_dir), DEFAULT_PROC_DIR@),
                    sv_prog: text_or(text_of(env.sv_prog), DEFAULT_SV_PROG@),
                    pstree_prog: text_or(text_of(env.pstree_prog), DEFAULT_PSTREE_PROG@),
                    colorize,
                    svdir,
                    tree: tree_of(args),
                    log: log_of(args),
                    verbose: args.verbose,
                    operands: operands_of(args),
                    mode: mode_of(args),
                },
            ),
        },
    }
}

fn text_or_default(text: &Option<String>, default: &str) -> (chosen: String)
    ensures
        chosen@ == text_or(text_of(*text), default@),
{
    match text {
        Some(t) => t.clone(),
        None => String::from_str(default),
    }
}

/// Decides whether output is coloured.
///
/// Fails with `UnknownColorOption` exactly where the colour option holds a
/// word other than `yes`, `on`, `always`, `no`, `off`, `never` and `auto`.
pub fn should_colorize_output(color_arg: &Option<String>, env: &Environment) -> (result: Result<
    bool,
    ConfigError,
>)
    ensures
        (match result {
            Ok(colorize) => Ok(colorize),
            Err(e) => Err(e@),
        }) == colorize_of(text_of(*color_arg), env.no_color, env.stdout_is_tty),
{
    if let Some(word) = color_arg {
        let s = word.as_str();
        if same_text(s, "yes") || same_text(s, "on") || same_text(s, "always") {
            return Ok(true);
        }
        if same_text(s, "no") || same_text(s, "off") || same_text(s, "never") {
            return Ok(false);
        }
        if !same_text(s, "auto") {
            return Err(ConfigError::UnknownColorOption(word.clone()));
        }
    }
    if env.no_color {
        return Ok(false);
    }
    Ok(env.stdout_is_tty)
}

/// Decides the service root.
///
/// Fails with `NoHomeDirectory` exactly where no directory is given, the
/// service root of the user is asked for, and the home directory is not
/// known.
pub fn get_svdir(dir_arg: &Option<String>, user_arg: bool, env: &Environment) -> (result: Result<
    String,
    ConfigError,
>)
    ensures
        (match result {
            Ok(svdir) => Ok(svdir@),
            Err(e) => Err(e@),
        }) == svdir_of(text_of(*dir_arg), user_arg, text_of(env.home_dir), text_of(env.svdir)),
{
    if let Some(dir) = dir_arg {
        return Ok(dir.clone());
    }
    if user_arg {
        return match &env.home_dir {
            Some(home) => Ok(join_path(home.as_str(), DEFAULT_USER_DIR)),
            None => Err(ConfigError::NoHomeDirectory),
        };
    }
    Ok(text_or_default(&env.svdir, DEFAULT_SVDIR))
}

impl Config {
    /// Makes the `Config` of an invocation from its command line and its
    /// environment.
    ///
    /// Fails exactly where the colour option is not known or the home
    /// directory is needed and not known; the colour option is looked at
    /// first.
    pub fn from_args(args: &Args, env: &Environment) -> (result: Result<Config, ConfigError>)
        ensures
            result_view(result) == config_of(*args, *env),
    {
        let proc_path = text_or_default(&env.proc_dir, DEFAULT_PROC_DIR);
        let sv_prog = text_or_default(&env.sv_prog, DEFAULT_SV_PROG);
        let pstree_prog = text_or_default(&env.pstree_prog, DEFAULT_PSTREE_PROG);
        let colorize = match should_colorize_output(&args.color, env) {
            Ok(colorize) => colorize,
            Err(e) => {
                return Err(e);
            },
        };
        let svdir = match get_svdir(&args.dir, args.user, env) {
            Ok(svdir) => svdir,
            Err(e) => {
                return Err(e);
            },
        };
        let mut tree = args.tree;
        let mut log = args.log;
        if let Some(Commands::Status { tree: status_tree, log: status_log, filter: _ }) =
            &args.command {
            if *status_tree {
                tree = true;
            }
            if *status_log {
                log = true;
            }
        }
        let (mode, operands) = match &args.command {
            None => (ProgramMode::Status, Vec::new()),
            Some(Commands::Status { tree: _, log: _, filter }) => (
                ProgramMode::Status,
                copy_texts(filter),
            ),
            Some(Commands::Enable { services }) => (ProgramMode::Enable, copy_texts(services)),
            Some(Commands::Disable { services }) => (ProgramMode::Disable, copy_texts(services)),
            Some(Commands::External(words)) => {
                let mode = if tree || log {
                    ProgramMode::Status
                } else {
                    ProgramMode::External
                };
                (mode, copy_texts(words))
            },
        };
        proof {
            assert(operands.deep_view() =~= operands_of(*args));
        }
        Ok(
            Config {
                proc_path,
                sv_prog,
                pstree_prog,
                colorize,
                svdir,
                tree,
                log,
                verbose: args.verbose,
                operands,
                mode,
            },
        )
    }
}

} // verus!
