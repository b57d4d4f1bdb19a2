//! Settings, merged from the command line, the environment and a
//! configuration file.
//!
//! The command line wins over the environment, and the environment over the
//! configuration file. The caller reads the three; what each of them says is
//! weighed here.

use crate::error::{IoError, IoErrorKind};
use crate::text::{
    bool_parse_failure, decimal_usize, first_and_rest, head_and_tail, non_empty, parse_bool,
    parse_usize, shell_words, split_words, usize_parse_failure,
};
use vstd::prelude::*;
use vstd::string::StringExecFns;

verus! {

/// The size of the copy buffer, in bytes, where no source names one.
pub const DEFAULT_BUFFER_SIZE: usize = 8192;

/// The name of the configuration file in the home directory.
pub const HOME_CONFIG_FILE: &'static str = ".fdinterceptrc.toml";

/// The name of this program's directory under the XDG configuration directory.
pub const XDG_CONFIG_DIR: &'static str = "fdintercept";

/// The name of the configuration file in that directory.
pub const XDG_CONFIG_FILE: &'static str = "rc.toml";

/// What a text that may be missing says.
pub open spec fn text_of(text: Option<String>) -> Option<Seq<char>> {
    match text {
        Some(t) => Some(t@),
        None => None,
    }
}

/// What the command line says.
#[derive(Debug)]
pub struct CliArgs {
    /// The path of a configuration file.
    pub conf: Option<String>,
    /// The path of the log of the standard input.
    pub stdin_log: Option<String>,
    /// The path of the log of the standard output.
    pub stdout_log: Option<String>,
    /// The path of the log of the standard error.
    pub stderr_log: Option<String>,
    /// Whether logs are emptied before use.
    pub recreate_logs: bool,
    /// The size of the copy buffer, in bytes.
    pub buffer_size: Option<usize>,
    /// The command to run, and its arguments.
    pub target: Vec<String>,
}

impl Default for CliArgs {
    /// A command line that says nothing.
    fn default() -> (args: CliArgs)
        ensures
            args.conf is None,
            args.stdin_log is None,
            args.stdout_log is None,
            args.stderr_log is None,
            !args.recreate_logs,
            args.buffer_size is None,
            args.target@.len() == 0,
    {
        CliArgs {
            conf: None,
            stdin_log: None,
            stdout_log: None,
            stderr_log: None,
            recreate_logs: false,
            buffer_size: None,
            target: Vec::new(),
        }
    }
}

/// What the environment says.
#[derive(Debug)]
pub struct EnvVars {
    /// The path of a configuration file.
    pub conf: Option<String>,
    /// Whether logs are emptied before use.
    pub recreate_logs: Option<bool>,
    /// The size of the copy buffer, in bytes.
    pub buffer_size: Option<usize>,
    /// The command to run with its arguments, as one text.
    pub target: Option<String>,
}

impl Default for EnvVars {
    /// An environment that says nothing.
    fn default() -> (vars: EnvVars)
        ensures
            vars.conf is None,
            vars.recreate_logs is None,
            vars.buffer_size is None,
            vars.target is None,
    {
        EnvVars { conf: None, recreate_logs: None, buffer_size: None, target: None }
    }
}

/// What the configuration file says.
#[derive(Debug, PartialEq, Eq)]
pub struct Config {
    /// The path of the log of the standard input.
    pub stdin_log: Option<String>,
    /// The path of the log of the standard output.
    pub stdout_log: Option<String>,
    /// The path of the log of the standard error.
    pub stderr_log: Option<String>,
    /// Whether logs are emptied before use.
    pub recreate_logs: Option<bool>,
    /// The size of the copy buffer, in bytes.
    pub buffer_size: Option<usize>,
    /// The command to run with its arguments, as one text.
    pub target: Option<String>,
}

impl Config {
    /// Whether the configuration says nothing.
    pub open spec fn is_silent(self) -> bool {
        &&& self.stdin_log is None
        &&& self.stdout_log is None
        &&& self.stderr_log is None
        &&& self.recreate_logs is None
        &&& self.buffer_size is None
        &&& self.target is None
    }
}

impl Default for Config {
    /// A configuration that says nothing.
    fn default() -> (config: Config)
        ensures
            config.is_silent(),
    {
        Config {
            stdin_log: None,
            stdout_log: None,
            stderr_log: None,
            recreate_logs: None,
            buffer_size: None,
            target: None,
        }
    }
}

/// The command to run: an executable, which has a name, and its arguments.
#[derive(Debug)]
pub struct Target {
    pub executable: String,
    pub args: Vec<String>,
}

/// A target as texts.
pub struct TargetView {
    pub executable: Seq<char>,
    pub args: Seq<Seq<char>>,
}

impl View for Target {
    type V = TargetView;

    open spec fn view(&self) -> TargetView {
        TargetView { executable: self.executable@, args: self.args.deep_view() }
    }
}

impl Target {
    /// The executable of a target has a name.
    pub open spec fn wf(self) -> bool {
        self.executable@.len() > 0
    }
}

/// The settings that the program runs with.
#[derive(Debug)]
pub struct ResolvedSettings {
    /// The path of the log of the standard input, if it is logged.
    pub stdin_log: Option<String>,
    /// The path of the log of the standard output, if it is logged.
    pub stdout_log: Option<String>,
    /// The path of the log of the standard error, if it is logged.
    pub stderr_log: Option<String>,
    /// Whether logs are emptied before use.
    pub recreate_logs: bool,
    /// The size of the copy buffer, in bytes.
    pub buffer_size: usize,
    /// The command to run.
    pub target: Target,
}

/// The three streams that can be logged.
#[derive(Clone, Copy, Debug, PartialEq, Eq, Structural)]
pub enum LogFd {
    Stdin,
    Stdout,
    Stderr,
}

impl LogFd {
    /// The name of the stream.
    pub fn label(self) -> (name: &'static str)
        ensures
            name@ == match self {
                LogFd::Stdin => "stdin"@,
                LogFd::Stdout => "stdout"@,
                LogFd::Stderr => "stderr"@,
            },
    {
        match self {
            LogFd::Stdin => "stdin",
            LogFd::Stdout => "stdout",
            LogFd::Stderr => "stderr",
        }
    }

    /// The name of the stream's log where no source names one.
    pub fn default_log_name(self) -> (name: &'static str)
        ensures
            name@ == match self {
                LogFd::Stdin => "stdin.log"@,
                LogFd::Stdout => "stdout.log"@,
                LogFd::Stderr => "stderr.log"@,
            },
    {
        match self {
            LogFd::Stdin => "stdin.log",
            LogFd::Stdout => "stdout.log",
            LogFd::Stderr => "stderr.log",
        }
    }
}

/// Whether the logs get their default names: they do where neither the
/// command line nor the configuration file names any log.
pub fn get_use_defaults(cli_args: &CliArgs, config: &Config) -> (use_defaults: bool)
    ensures
        use_defaults <==> {
            &&& cli_args.stdin_log is None
            &&& cli_args.stdout_log is None
            &&& cli_args.stderr_log is None
            &&& config.stdin_log is None
            &&& config.stdout_log is None
            &&& config.stderr_log is None
        },
{
    cli_args.stdin_log.is_none() && cli_args.stdout_log.is_none() && cli_args.stderr_log.is_none()
        && config.stdin_log.is_none() && config.stdout_log.is_none()
        && config.stderr_log.is_none()
}

/// The log that the command line names for a stream.
pub open spec fn cli_log(log_fd: LogFd, cli_args: CliArgs) -> Option<String> {
    match log_fd {
        LogFd::Stdin => cli_args.stdin_log,
        LogFd::Stdout => cli_args.stdout_log,
        LogFd::Stderr => cli_args.stderr_log,
    }
}

/// The log that the configuration file names for a stream.
pub open spec fn config_log(log_fd: LogFd, config: Config) -> Option<String> {
    match log_fd {
        LogFd::Stdin => config.stdin_log,
        LogFd::Stdout => config.stdout_log,
        LogFd::Stderr => config.stderr_log,
    }
}

/// The path of a stream's log: the one the command line names; else the one
/// the configuration file names; else the default, if defaults are in use;
/// else none, and the stream is not logged.
pub open spec fn log_name(
    log_fd: LogFd,
    cli_args: CliArgs,
    config: Config,
    use_default: bool,
    default_name: Seq<char>,
) -> Option<Seq<char>> {
    if cli_log(log_fd, cli_args) is Some {
        text_of(cli_log(log_fd, cli_args))
    } else if config_log(log_fd, config) is Some {
        text_of(config_log(log_fd, config))
    } else if use_default {
        Some(default_name)
    } else {
        None
    }
}

/// The path of a stream's log, if the stream is logged.
pub fn get_log_name(
    log_fd: LogFd,
    cli_args: &CliArgs,
    config: &Config,
    use_default: bool,
    default_name: &str,
) -> (name: Option<String>)
    ensures
        text_of(name) == log_name(log_fd, *cli_args, *config, use_default, default_name@),
{
    let cli_name = match log_fd {
        LogFd::Stdin => &cli_args.stdin_log,
        LogFd::Stdout => &cli_args.stdout_log,
        LogFd::Stderr => &cli_args.stderr_log,
    };
    let config_name = match log_fd {
        LogFd::Stdin => &config.stdin_log,
        LogFd::Stdout => &config.stdout_log,
        LogFd::Stderr => &config.stderr_log,
    };
    match (cli_name, config_name) {
        (Some(path), _) => Some(path.clone()),
        (None, Some(path)) => Some(path.clone()),
        (None, None) => if use_default {
            Some(String::from_str(default_name))
        } else {
            None
        },
    }
}

/// Whether logs are emptied before use: if the command line says so; else
/// what the environment says; else what the configuration file says; else
/// not.
pub open spec fn recreate_logs(cli_args: CliArgs, env_vars: EnvVars, config: Config) -> bool {
    cli_args.recreate_logs || match (env_vars.recreate_logs, config.recreate_logs) {
        (Some(said), _) => said,
        (None, Some(said)) => said,
        (None, None) => false,
    }
}

/// Whether logs are emptied before use.
pub fn get_recreate_logs(cli_args: &CliArgs, env_vars: &EnvVars, config: &Config) -> (recreate:
    bool)
    ensures
        recreate == recreate_logs(*cli_args, *env_vars, *config),
{
    cli_args.recreate_logs || match (env_vars.recreate_logs, config.recreate_logs) {
        (Some(said), _) => said,
        (None, Some(said)) => said,
        (None, None) => false,
    }
}

/// The size of the copy buffer: what the command line says; else what the
/// environment says; else what the configuration file says; else the default.
pub open spec fn buffer_size(cli_args: CliArgs, env_vars: EnvVars, config: Config) -> usize {
    match (cli_args.buffer_size, env_vars.buffer_size, config.buffer_size) {
        (Some(size), _, _) => size,
        (None, Some(size), _) => size,
        (None, None, Some(size)) => size,
        (None, None, None) => DEFAULT_BUFFER_SIZE,
    }
}

/// The size of the copy buffer, in bytes.
pub fn get_buffer_size(cli_args: &CliArgs, env_vars: &EnvVars, config: &Config) -> (size: usize)
    ensures
        size == buffer_size(*cli_args, *env_vars, *config),
{
    match (cli_args.buffer_size, env_vars.buffer_size, config.buffer_size) {
        (Some(size), _, _) => size,
        (None, Some(size), _) => size,
        (None, None, Some(size)) => size,
        (None, None, None) => DEFAULT_BUFFER_SIZE,
    }
}

/// Why the command line gives no target.
#[derive(Clone, Copy, Debug, PartialEq, Eq, Structural)]
pub enum CliArgsTargetParseError {
    /// It names none.
    NotDefined,
    /// The executable it names has an empty name.
    EmptyExecutable,
}

impl CliArgsTargetParseError {
    /// The failure in words.
    pub fn message(&self) -> (text: String)
        ensures
            text@ == match *self {
                CliArgsTargetParseError::NotDefined => "Target is not defined"@,
                CliArgsTargetParseError::EmptyExecutable => "Target executable cannot be empty"@,
            },
    {
        match self {
            CliArgsTargetParseError::NotDefined => String::from_str("Target is not defined"),
            CliArgsTargetParseError::EmptyExecutable => String::from_str(
                "Target executable cannot be empty",
            ),
        }
    }
}

/// Why a text gives no target.
#[derive(Clone, Copy, Debug, PartialEq, Eq, Structural)]
pub enum StringTargetParseError {
    /// It holds no word.
    Empty,
    /// It cannot be split into words.
    FailedToTokenize,
    /// The executable it names has an empty name.
    EmptyExecutable,
}

impl StringTargetParseError {
    /// The failure in words.
    pub fn message(&self) -> (text: String)
        ensures
            text@ == match *self {
                StringTargetParseError::Empty => "Target cannot be empty"@,
                StringTargetParseError::FailedToTokenize => "Failed to tokenize target"@,
                StringTargetParseError::EmptyExecutable => "Target executable cannot be empty"@,
            },
    {
        match self {
            StringTargetParseError::Empty => String::from_str("Target cannot be empty"),
            StringTargetParseError::FailedToTokenize => String::from_str(
                "Failed to tokenize target",
            ),
            StringTargetParseError::EmptyExecutable => String::from_str(
                "Target executable cannot be empty",
            ),
        }
    }
}

/// What a result that holds a target says.
pub open spec fn target_view<E>(result: Result<Target, E>) -> Result<TargetView, E> {
    match result {
        Ok(target) => Ok(target@),
        Err(e) => Err(e),
    }
}

/// The target that the words after the options name: the first word is the
/// executable and must not be empty, the others are its arguments.
pub open spec fn target_from_cli_arg(words: Seq<Seq<char>>) -> Result<
    TargetView,
    CliArgsTargetParseError,
> {
    if words.len() == 0 {
        Err(CliArgsTargetParseError::NotDefined)
    } else if words[0].len() == 0 {
        Err(CliArgsTargetParseError::EmptyExecutable)
    } else {
        Ok(TargetView { executable: words[0], args: words.skip(1) })
    }
}

/// The target that the command line names.
pub fn get_target_from_cli_arg(cli_arg: &[String]) -> (target: Result<
    Target,
    CliArgsTargetParseError,
>)
    ensures
        target_view(target) == target_from_cli_arg(cli_arg.deep_view()),
        target matches Ok(named) ==> named.wf(),
{
    match first_and_rest(cli_arg) {
        None => Err(CliArgsTargetParseError::NotDefined),
        Some((head, tail)) => match non_empty(head) {
            None => Err(CliArgsTargetParseError::EmptyExecutable),
            Some(executable) => Ok(Target { executable, args: tail }),
        },
    }
}

/// The target that the words of a text name, where `words` is what splitting
/// the text gave: no target if the text could not be split or holds no word;
/// else the first word is the executable and must not be empty, and the
/// others are its arguments.
pub open spec fn target_of_words(words: Option<Seq<Seq<char>>>) -> Result<
    TargetView,
    StringTargetParseError,
> {
    match words {
        None => Err(StringTargetParseError::FailedToTokenize),
        Some(list) => if list.len() == 0 {
            Err(StringTargetParseError::Empty)
        } else if list[0].len() == 0 {
            Err(StringTargetParseError::EmptyExecutable)
        } else {
            Ok(TargetView { executable: list[0], args: list.skip(1) })
        },
    }
}

/// What a list of words that may be missing says.
pub open spec fn words_of(words: Option<Vec<String>>) -> Option<Seq<Seq<char>>> {
    match words {
        Some(list) => Some(list.deep_view()),
        None => None,
    }
}

/// The target that the words of a text name, where `words` is what splitting
/// the text gave.
pub fn target_from_words(words: Option<Vec<String>>) -> (target: Result<
    Target,
    StringTargetParseError,
>)
    ensures
        target_view(target) == target_of_words(words_of(words)),
        target matches Ok(named) ==> named.wf(),
{
    match words {
        None => Err(StringTargetParseError::FailedToTokenize),
        Some(list) => match head_and_tail(list) {
            None => Err(StringTargetParseError::Empty),
            Some((head, tail)) => match non_empty(head) {
                None => Err(StringTargetParseError::EmptyExecutable),
                Some(executable) => Ok(Target { executable, args: tail }),
            },
        },
    }
}

/// The target that a text names: none if the text is empty; else the one
/// that its words name, split as a shell would split them.
pub open spec fn target_from_string(text: Seq<char>) -> Result<TargetView, StringTargetParseError> {
    if text.len() == 0 {
        Err(StringTargetParseError::Empty)
    } else {
        target_of_words(shell_words(text))
    }
}

/// The target that a text names.
pub fn get_target_from_string(target: &str) -> (named: Result<Target, StringTargetParseError>)
    ensures
        target_view(named) == target_from_string(target@),
        named matches Ok(found) ==> found.wf(),
{
    if target.is_empty() {
        return Err(StringTargetParseError::Empty);
    }
    target_from_words(split_words(target))
}

/// Why there is no target.
#[derive(Clone, Copy, Debug, PartialEq, Eq, Structural)]
pub enum TargetError {
    /// The command line names one that cannot be used.
    CliArgs(CliArgsTargetParseError),
    /// The environment names one that cannot be used.
    EnvVars(StringTargetParseError),
    /// The configuration file names one that cannot be used.
    Config(StringTargetParseError),
    /// No source names one.
    NotDefined,
}

impl TargetError {
    /// The failure in words.
    pub fn message(&self) -> (text: String)
        ensures
            text@ == match *self {
                TargetError::CliArgs(_) => "Error getting target from CLI arguments"@,
                TargetError::EnvVars(_) =>
                    "Error getting target from FDINTERCEPT_TARGET environment variable"@,
                TargetError::Config(_) => "Error getting target from configuration file"@,
                TargetError::NotDefined =>
                    "Target not defined in CLI arguments, FDINTERCEPT_TARGET environment variable, or configuration file"@,
            },
    {
        match self {
            TargetError::CliArgs(_) => String::from_str("Error getting target from CLI arguments"),
            TargetError::EnvVars(_) => String::from_str(
                "Error getting target from FDINTERCEPT_TARGET environment variable",
            ),
            TargetError::Config(_) => String::from_str(
                "Error getting target from configuration file",
            ),
            TargetError::NotDefined => String::from_str(
                "Target not defined in CLI arguments, FDINTERCEPT_TARGET environment variable, or configuration file",
            ),
        }
    }
}

/// The target that the three sources name together: the command line's, if
/// it names one; else the environment's; else the configuration file's. The
/// first source that names a target decides, also where its target cannot be
/// used.
pub open spec fn target_of_sources(cli_args: CliArgs, env_vars: EnvVars, config: Config) -> Result<
    TargetView,
    TargetError,
> {
    match target_from_cli_arg(cli_args.target.deep_view()) {
        Ok(target) => Ok(target),
        Err(CliArgsTargetParseError::EmptyExecutable) => Err(
            TargetError::CliArgs(CliArgsTargetParseError::EmptyExecutable),
        ),
        Err(CliArgsTargetParseError::NotDefined) => match (env_vars.target, config.target) {
            (Some(text), _) => match target_from_string(text@) {
                Ok(target) => Ok(target),
                Err(e) => Err(TargetError::EnvVars(e)),
            },
            (None, Some(text)) => match target_from_string(text@) {
                Ok(target) => Ok(target),
                Err(e) => Err(TargetError::Config(e)),
            },
            (None, None) => Err(TargetError::NotDefined),
        },
    }
}

/// The target that the three sources name together.
pub fn get_target(cli_args: &CliArgs, env_vars: &EnvVars, config: &Config) -> (target: Result<
    Target,
    TargetError,
>)
    ensures
        target_view(target) == target_of_sources(*cli_args, *env_vars, *config),
        target matches Ok(named) ==> named.wf(),
{
    match get_target_from_cli_arg(cli_args.target.as_slice()) {
        Ok(target) => {
            return Ok(target);
        },
        Err(CliArgsTargetParseError::NotDefined) => {},
        Err(e) => {
            return Err(TargetError::CliArgs(e));
        },
    }
    if let Some(text) = &env_vars.target {
        return match get_target_from_string(text.as_str()) {
            Ok(target) => Ok(target),
            Err(e) => Err(TargetError::EnvVars(e)),
        };
    }
    if let Some(text) = &config.target {
        return match get_target_from_string(text.as_str()) {
            Ok(target) => Ok(target),
            Err(e) => Err(TargetError::Config(e)),
        };
    }
    Err(TargetError::NotDefined)
}

/// What looking a variable up in the environment gave.
#[derive(Debug)]
pub enum EnvLookup {
    /// The variable is set, to this text.
    Present(String),
    /// The variable is not set.
    NotPresent,
    /// The variable is set to something that is no text; what is wrong with
    /// it is described here.
    NotUnicode(String),
}

impl EnvLookup {
    /// The text that the variable is set to, if it is set to one.
    pub open spec fn present(self) -> Option<String> {
        match self {
            EnvLookup::Present(text) => Some(text),
            _ => None,
        }
    }
}

/// The variables of the environment that hold settings.
#[derive(Clone, Copy, Debug, PartialEq, Eq, Structural)]
pub enum EnvVar {
    /// The path of a configuration file.
    Conf,
    /// Whether logs are emptied before use.
    RecreateLogs,
    /// The size of the copy buffer, in bytes.
    BufferSize,
    /// The command to run with its arguments.
    Target,
}

impl EnvVar {
    /// The name of the variable.
    pub open spec fn spec_name(self) -> Seq<char> {
        match self {
            EnvVar::Conf => "FDINTERCEPTRC"@,
            EnvVar::RecreateLogs => "FDINTERCEPT_RECREATE_LOGS"@,
            EnvVar::BufferSize => "FDINTERCEPT_BUFFER_SIZE"@,
            EnvVar::Target => "FDINTERCEPT_TARGET"@,
        }
    }

    /// The name of the variable.
    pub fn name(self) -> (name: &'static str)
        ensures
            name@ == self.spec_name(),
    {
        match self {
            EnvVar::Conf => "FDINTERCEPTRC",
            EnvVar::RecreateLogs => "FDINTERCEPT_RECREATE_LOGS",
            EnvVar::BufferSize => "FDINTERCEPT_BUFFER_SIZE",
            EnvVar::Target => "FDINTERCEPT_TARGET",
        }
    }
}

/// What looking up each of the variables gave.
#[derive(Debug)]
pub struct RawEnvVars {
    pub conf: EnvLookup,
    pub recreate_logs: EnvLookup,
    pub buffer_size: EnvLookup,
    pub target: EnvLookup,
}

/// Why the environment cannot be used.
#[derive(Debug)]
pub enum EnvVarsError {
    /// The variable that names the configuration file is set to nothing.
    ConfEmpty,
    /// A variable is set to something that is no text.
    Read { var: EnvVar, error: String },
    /// A variable is set to a text that does not say what it should.
    Parse { var: EnvVar, error: String },
}

impl EnvVarsError {
    /// The failure in words.
    pub open spec fn spec_message(self) -> Seq<char> {
        match self {
            EnvVarsError::ConfEmpty => "FDINTERCEPTRC is empty"@,
            EnvVarsError::Read { var, error } => "Error reading "@ + var.spec_name()
                + " environment variable: "@ + error@,
            EnvVarsError::Parse { var, error } => "Error parsing "@ + var.spec_name()
                + " environment variable: "@ + error@,
        }
    }

    /// The failure in words.
    pub fn message(&self) -> (text: String)
        ensures
            text@ == self.spec_message(),
    {
        match self {
            EnvVarsError::ConfEmpty => String::from_str("FDINTERCEPTRC is empty"),
            EnvVarsError::Read { var, error } => String::from_str("Error reading ").concat(
                var.name(),
            ).concat(" environment variable: ").concat(error.as_str()),
            EnvVarsError::Parse { var, error } => String::from_str("Error parsing ").concat(
                var.name(),
            ).concat(" environment variable: ").concat(error.as_str()),
        }
    }
}

/// The setting that a variable holds, where `parsed` is what reading its text
/// gave: the value read, or the failure to read one.
pub fn parsed_setting<T>(var: EnvVar, parsed: Result<T, String>) -> (setting: Result<
    Option<T>,
    EnvVarsError,
>)
    ensures
        parsed matches Ok(value) ==> setting == Ok::<Option<T>, EnvVarsError>(Some(value)),
        parsed matches Err(error) ==> setting == Err::<Option<T>, EnvVarsError>(
            EnvVarsError::Parse { var, error },
        ),
{
    match parsed {
        Ok(value) => Ok(Some(value)),
        Err(error) => Err(EnvVarsError::Parse { var, error }),
    }
}

/// What the environment comes to.
pub enum EnvReading {
    /// These settings.
    Vars(EnvVars),
    /// The variable that names the configuration file is set to nothing.
    ConfEmpty,
    /// This variable is set to something that is no text, as described.
    Unreadable(EnvVar, String),
    /// This variable is set to a text that does not say what it should, as
    /// described.
    Unparsable(EnvVar, Seq<char>),
}

/// What a result of reading the environment comes to.
pub open spec fn env_reading_of(result: Result<EnvVars, EnvVarsError>) -> EnvReading {
    match result {
        Ok(vars) => EnvReading::Vars(vars),
        Err(EnvVarsError::ConfEmpty) => EnvReading::ConfEmpty,
        Err(EnvVarsError::Read { var, error }) => EnvReading::Unreadable(var, error),
        Err(EnvVarsError::Parse { var, error }) => EnvReading::Unparsable(var, error@),
    }
}

/// Whether a text says what the variable should say: the configuration file
/// must not be nothing; whether logs are emptied must read `true` or `false`;
/// the buffer size must be a number; the target may be any text.
pub open spec fn acceptable(var: EnvVar, text: Seq<char>) -> bool {
    match var {
        EnvVar::Conf => text.len() > 0,
        EnvVar::RecreateLogs => text == "true"@ || text == "false"@,
        EnvVar::BufferSize => decimal_usize(text) is Some,
        EnvVar::Target => true,
    }
}

/// What is said of a text that does not say what the variable should say.
pub open spec fn parse_failure(var: EnvVar, text: Seq<char>) -> Seq<char> {
    match var {
        EnvVar::RecreateLogs => bool_parse_failure(text),
        _ => usize_parse_failure(text),
    }
}

/// What stands against a variable, if anything: that it is set to something
/// that is no text, or to a text that does not say what it should.
pub open spec fn objection(var: EnvVar, lookup: EnvLookup) -> Option<EnvReading> {
    match lookup {
        EnvLookup::NotUnicode(error) => Some(EnvReading::Unreadable(var, error)),
        EnvLookup::Present(text) => if acceptable(var, text@) {
            None
        } else if var == EnvVar::Conf {
            Some(EnvReading::ConfEmpty)
        } else {
            Some(EnvReading::Unparsable(var, parse_failure(var, text@)))
        },
        EnvLookup::NotPresent => None,
    }
}

/// What the environment comes to. The variables are weighed in this order:
/// the configuration file, whether logs are emptied, the buffer size, the
/// target. The first that something stands against decides. Where nothing
/// stands against any, each setting is what its variable says, and unset
/// where the variable is not set.
pub open spec fn env_reading(raw: RawEnvVars) -> EnvReading {
    if objection(EnvVar::Conf, raw.conf) is Some {
        objection(EnvVar::Conf, raw.conf)->0
    } else if objection(EnvVar::RecreateLogs, raw.recreate_logs) is Some {
        objection(EnvVar::RecreateLogs, raw.recreate_logs)->0
    } else if objection(EnvVar::BufferSize, raw.buffer_size) is Some {
        objection(EnvVar::BufferSize, raw.buffer_size)->0
    } else if objection(EnvVar::Target, raw.target) is Some {
        objection(EnvVar::Target, raw.target)->0
    } else {
        EnvReading::Vars(
            EnvVars {
                conf: raw.conf.present(),
                recreate_logs: match raw.recreate_logs {
                    EnvLookup::Present(text) => Some(text@ == "true"@),
                    _ => None,
                },
                buffer_size: match raw.buffer_size {
                    EnvLookup::Present(text) => decimal_usize(text@),
                    _ => None,
                },
                target: raw.target.present(),
            },
        )
    }
}

/// Weighs what looking up the variables of the environment gave.
pub fn get_env_vars(raw: RawEnvVars) -> (vars: Result<EnvVars, EnvVarsError>)
    ensures
        env_reading_of(vars) == env_reading(raw),
{
    let RawEnvVars { conf, recreate_logs, buffer_size, target } = raw;
    let conf = match conf {
        EnvLookup::Present(text) => {
            if text.as_str().is_empty() {
                return Err(EnvVarsError::ConfEmpty);
            }
            Some(text)
        },
        EnvLookup::NotPresent => None,
        EnvLookup::NotUnicode(error) => {
            return Err(EnvVarsError::Read { var: EnvVar::Conf, error });
        },
    };
    let recreate_logs = match recreate_logs {
        EnvLookup::Present(text) => {
            match parsed_setting(EnvVar::RecreateLogs, parse_bool(text.as_str())) {
                Ok(setting) => setting,
                Err(e) => {
                    return Err(e);
                },
            }
        },
        EnvLookup::NotPresent => None,
        EnvLookup::NotUnicode(error) => {
            return Err(EnvVarsError::Read { var: EnvVar::RecreateLogs, error });
        },
    };
    let buffer_size = match buffer_size {
        EnvLookup::Present(text) => {
            match parsed_setting(EnvVar::BufferSize, parse_usize(text.as_str())) {
                Ok(setting) => setting,
                Err(e) => {
                    return Err(e);
                },
            }
        },
        EnvLookup::NotPresent => None,
        EnvLookup::NotUnicode(error) => {
            return Err(EnvVarsError::Read { var: EnvVar::BufferSize, error });
        },
    };
    let target = match target {
        EnvLookup::Present(text) => Some(text),
        EnvLookup::NotPresent => None,
        EnvLookup::NotUnicode(error) => {
            return Err(EnvVarsError::Read { var: EnvVar::Target, error });
        },
    };
    Ok(EnvVars { conf, recreate_logs, buffer_size, target })
}

/// The variable of the environment that names the home directory.
pub const HOME_VAR: &'static str = "HOME";

/// The variable of the environment that names the XDG configuration directory.
pub const XDG_CONFIG_HOME_VAR: &'static str = "XDG_CONFIG_HOME";

/// Why there is no configuration.
#[derive(Debug)]
pub enum ConfigError {
    /// The file at `path` could not be read.
    Read { path: String, error: IoError },
    /// The file does not hold what a configuration holds, as described.
    Parse(String),
}

impl ConfigError {
    /// The failure in words.
    pub open spec fn spec_message(self) -> Seq<char> {
        match self {
            ConfigError::Read { path, .. } => "Error reading configuration file "@ + path@,
            ConfigError::Parse(_) => "Error parsing TOML configuration"@,
        }
    }

    /// The failure in words.
    pub fn message(&self) -> (text: String)
        ensures
            text@ == self.spec_message(),
    {
        match self {
            ConfigError::Read { path, .. } => String::from_str(
                "Error reading configuration file ",
            ).concat(path.as_str()),
            ConfigError::Parse(_) => String::from_str("Error parsing TOML configuration"),
        }
    }
}

/// Where the search for the configuration file stands: what it waits for, or
/// how it ended.
#[derive(Debug)]
pub enum ConfigSearch {
    /// The file at this path, named by the user, is read.
    ReadingExplicit(String),
    /// The home directory is looked up in the environment.
    LookingUpHome,
    /// The file `HOME_CONFIG_FILE` in this directory is read.
    ReadingHome(String),
    /// The XDG configuration directory is looked up in the environment.
    LookingUpXdg,
    /// The file `XDG_CONFIG_FILE` in `XDG_CONFIG_DIR` in this directory is read.
    ReadingXdg(String),
    /// A file was read, and this is what it holds.
    Found(String),
    /// There is no file: the configuration says nothing.
    Defaults,
    /// The search failed.
    Failed(ConfigError),
}

/// What happened while a `ConfigSearch` waited.
#[derive(Debug)]
pub enum ConfigEvent {
    /// A directory was looked up in the environment.
    Looked(EnvLookup),
    /// The file at `path` was read.
    Read { path: String, result: Result<String, IoError> },
}

impl ConfigSearch {
    /// Where the search starts: at the file that the command line names;
    /// else at the one that the environment names; else at the home
    /// directory.
    pub open spec fn spec_start(cli_args: CliArgs, env_vars: EnvVars) -> ConfigSearch {
        match (cli_args.conf, env_vars.conf) {
            (Some(path), _) => ConfigSearch::ReadingExplicit(path),
            (None, Some(path)) => ConfigSearch::ReadingExplicit(path),
            (None, None) => ConfigSearch::LookingUpHome,
        }
    }

    /// Where the search starts.
    pub fn start(cli_args: &CliArgs, env_vars: &EnvVars) -> (search: ConfigSearch)
        ensures
            search == ConfigSearch::spec_start(*cli_args, *env_vars),
    {
        match (&cli_args.conf, &env_vars.conf) {
            (Some(path), _) => ConfigSearch::ReadingExplicit(path.clone()),
            (None, Some(path)) => ConfigSearch::ReadingExplicit(path.clone()),
            (None, None) => ConfigSearch::LookingUpHome,
        }
    }
}

/// The search after one more thing has happened.
///
/// A file that the user named must be there: if it cannot be read, the search
/// fails, and the failure names the path that the user gave. A failure to
/// read one of the other two names the path that was read. The file in the home directory and the one in the XDG directory may
/// be missing, and the search then moves on; any other failure to read them
/// ends it. A directory that the environment does not name, or names by
/// something that is no text, is passed over. A file that was read ends the
/// search; where all were passed over, the configuration says nothing. An
/// event that the search does not wait for changes nothing.
pub open spec fn config_step(search: ConfigSearch, event: ConfigEvent) -> ConfigSearch {
    match (search, event) {
        (ConfigSearch::ReadingExplicit(named), ConfigEvent::Read { result, .. }) => match result {
            Ok(contents) => ConfigSearch::Found(contents),
            Err(error) => ConfigSearch::Failed(ConfigError::Read { path: named, error }),
        },
        (ConfigSearch::LookingUpHome, ConfigEvent::Looked(lookup)) => match lookup {
            EnvLookup::Present(home) => ConfigSearch::ReadingHome(home),
            _ => ConfigSearch::LookingUpXdg,
        },
        (ConfigSearch::ReadingHome(_), ConfigEvent::Read { path, result }) => match result {
            Ok(contents) => ConfigSearch::Found(contents),
            Err(error) => if error.kind == IoErrorKind::NotFound {
                ConfigSearch::LookingUpXdg
            } else {
                ConfigSearch::Failed(ConfigError::Read { path, error })
            },
        },
        (ConfigSearch::LookingUpXdg, ConfigEvent::Looked(lookup)) => match lookup {
            EnvLookup::Present(dir) => ConfigSearch::ReadingXdg(dir),
            _ => ConfigSearch::Defaults,
        },
        (ConfigSearch::ReadingXdg(_), ConfigEvent::Read { path, result }) => match result {
            Ok(contents) => ConfigSearch::Found(contents),
            Err(error) => if error.kind == IoErrorKind::NotFound {
                ConfigSearch::Defaults
            } else {
                ConfigSearch::Failed(ConfigError::Read { path, error })
            },
        },
        _ => search,
    }
}

/// What is said when the search passes over a directory because the
/// environment names it by something that is no text.
pub open spec fn config_diagnostic(search: ConfigSearch, event: ConfigEvent) -> Option<Seq<char>> {
    match (search, event) {
        (ConfigSearch::LookingUpHome, ConfigEvent::Looked(EnvLookup::NotUnicode(error))) => Some(
            "Error reading HOME environment variable: "@ + error@,
        ),
        (ConfigSearch::LookingUpXdg, ConfigEvent::Looked(EnvLookup::NotUnicode(error))) => Some(
            "Error reading XDG_CONFIG_HOME environment variable: "@ + error@,
        ),
        _ => None,
    }
}

/// Searches for the configuration file, one event at a time.
///
/// A search starts with `ConfigSearch::start`. The caller looks up or reads
/// what the search names, hands in what happened, says what comes back to be
/// said, and goes on with the search returned, until that is `Found`,
/// `Defaults` or `Failed`.
pub fn get_config(search: ConfigSearch, event: ConfigEvent) -> (step: (ConfigSearch, Option<String>))
    ensures
        step.0 == config_step(search, event),
        text_of(step.1) == config_diagnostic(search, event),
{
    match (search, event) {
        (ConfigSearch::ReadingExplicit(named), ConfigEvent::Read { result, .. }) => match result {
            Ok(contents) => (ConfigSearch::Found(contents), None),
            Err(error) => (ConfigSearch::Failed(ConfigError::Read { path: named, error }), None),
        },
        (ConfigSearch::LookingUpHome, ConfigEvent::Looked(lookup)) => match lookup {
            EnvLookup::Present(home) => (ConfigSearch::ReadingHome(home), None),
            EnvLookup::NotPresent => (ConfigSearch::LookingUpXdg, None),
            EnvLookup::NotUnicode(error) => (
                ConfigSearch::LookingUpXdg,
                Some(
                    String::from_str("Error reading HOME environment variable: ").concat(
                        error.as_str(),
                    ),
                ),
            ),
        },
        (ConfigSearch::ReadingHome(_), ConfigEvent::Read { path, result }) => match result {
            Ok(contents) => (ConfigSearch::Found(contents), None),
            Err(error) => if error.kind == IoErrorKind::NotFound {
                (ConfigSearch::LookingUpXdg, None)
            } else {
                (ConfigSearch::Failed(ConfigError::Read { path, error }), None)
            },
        },
        (ConfigSearch::LookingUpXdg, ConfigEvent::Looked(lookup)) => match lookup {
            EnvLookup::Present(dir) => (ConfigSearch::ReadingXdg(dir), None),
            EnvLookup::NotPresent => (ConfigSearch::Defaults, None),
            EnvLookup::NotUnicode(error) => (
                ConfigSearch::Defaults,
                Some(
                    String::from_str("Error reading XDG_CONFIG_HOME environment variable: ").concat(
                        error.as_str(),
                    ),
                ),
            ),
        },
        (ConfigSearch::ReadingXdg(_), ConfigEvent::Read { path, result }) => match result {
            Ok(contents) => (ConfigSearch::Found(contents), None),
            Err(error) => if error.kind == IoErrorKind::NotFound {
                (ConfigSearch::Defaults, None)
            } else {
                (ConfigSearch::Failed(ConfigError::Read { path, error }), None)
            },
        },
        (search, _) => (search, None),
    }
}

/// Why there are no settings.
#[derive(Debug)]
pub enum SettingsError {
    /// The environment cannot be used.
    EnvVars(EnvVarsError),
    /// There is no configuration.
    Config(ConfigError),
    /// There is no target.
    Target(TargetError),
}

impl SettingsError {
    /// The failure in words.
    pub open spec fn spec_message(self) -> Seq<char> {
        match self {
            SettingsError::EnvVars(_) => "Error reading environment variables"@,
            SettingsError::Config(_) => "Error reading configuration"@,
            SettingsError::Target(_) => "Error getting target"@,
        }
    }

    /// The failure in words.
    pub fn message(&self) -> (text: String)
        ensures
            text@ == self.spec_message(),
    {
        match self {
            SettingsError::EnvVars(_) => String::from_str("Error reading environment variables"),
            SettingsError::Config(_) => String::from_str("Error reading configuration"),
            SettingsError::Target(_) => String::from_str("Error getting target"),
        }
    }
}

/// The settings that the three sources come to. Each log has the name the
/// command line gives it, else the one the configuration file gives it; where
/// neither names any log, each log has its default name. Without a target
/// there are no settings.
pub fn get_settings(cli_args: &CliArgs, env_vars: &EnvVars, config: &Config) -> (settings: Result<
    ResolvedSettings,
    SettingsError,
>)
    ensures
        settings is Ok <==> target_of_sources(*cli_args, *env_vars, *config) is Ok,
        settings matches Err(e) ==> target_of_sources(*cli_args, *env_vars, *config) matches Err(
            cause,
        ) && e == SettingsError::Target(cause),
        settings matches Ok(resolved) ==> {
            let use_defaults = cli_args.stdin_log is None && cli_args.stdout_log is None
                && cli_args.stderr_log is None && config.stdin_log is None && config.stdout_log
                is None && config.stderr_log is None;
            &&& text_of(resolved.stdin_log) == log_name(
                LogFd::Stdin,
                *cli_args,
                *config,
                use_defaults,
                "stdin.log"@,
            )
            &&& text_of(resolved.stdout_log) == log_name(
                LogFd::Stdout,
                *cli_args,
                *config,
                use_defaults,
                "stdout.log"@,
            )
            &&& text_of(resolved.stderr_log) == log_name(
                LogFd::Stderr,
                *cli_args,
                *config,
                use_defaults,
                "stderr.log"@,
            )
            &&& resolved.recreate_logs == recreate_logs(*cli_args, *env_vars, *config)
            &&& resolved.buffer_size == buffer_size(*cli_args, *env_vars, *config)
            &&& Ok::<TargetView, TargetError>(resolved.target@) == target_of_sources(
                *cli_args,
                *env_vars,
                *config,
            )
            &&& resolved.target.wf()
        },
{
    let use_defaults = get_use_defaults(cli_args, config);
    let target = match get_target(cli_args, env_vars, config) {
        Ok(target) => target,
        Err(e) => {
            return Err(SettingsError::Target(e));
        },
    };
    Ok(
        ResolvedSettings {
            stdin_log: get_log_name(
                LogFd::Stdin,
                cli_args,
                config,
                use_defaults,
                LogFd::Stdin.default_log_name(),
            ),
            stdout_log: get_log_name(
                LogFd::Stdout,
                cli_args,
                config,
                use_defaults,
                LogFd::Stdout.default_log_name(),
            ),
            stderr_log: get_log_name(
                LogFd::Stderr,
                cli_args,
                config,
                use_defaults,
                LogFd::Stderr.default_log_name(),
            ),
            recreate_logs: get_recreate_logs(cli_args, env_vars, config),
            buffer_size: get_buffer_size(cli_args, env_vars, config),
            target,
        },
    )
}

} // verus!
