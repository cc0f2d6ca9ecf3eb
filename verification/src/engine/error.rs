//! The errors of the tool, with the message and the exit code of each.

use vstd::prelude::*;
use crate::text::concat;

verus! {

/// Everything that can go wrong while the tool itself works. A check that
/// fails is no error: it is reported through its result.
#[derive(Debug)]
#[allow(inconsistent_fields)]
pub enum Error {
    /// No configuration file was found.
    ConfigNotFound {
        /// Where the file was expected.
        path: String,
    },
    /// The configuration file could not be parsed.
    ConfigParse {
        /// What was wrong.
        message: String,
        /// The text of the underlying error, if there was one.
        source: Option<String>,
    },
    /// A configuration value is not acceptable.
    ConfigInvalid {
        /// The field at fault.
        field: String,
        /// Why it is not acceptable.
        message: String,
    },
    /// The working directory is not inside a Git repository.
    NotGitRepo,
    /// A Git operation failed.
    GitOperation {
        /// The operation.
        operation: String,
        /// What went wrong.
        message: String,
    },
    /// The Git hooks directory could not be determined.
    GitHooksDir,
    /// No check of that name is defined.
    CheckNotFound {
        /// The name asked for.
        name: String,
    },
    /// A check failed.
    CheckFailed {
        /// The check.
        name: String,
        /// Its message or output.
        message: String,
        /// Its exit code, where known.
        exit_code: Option<i32>,
    },
    /// A check ran over its time budget.
    CheckTimeout {
        /// The check.
        name: String,
        /// The budget, as configured.
        timeout: String,
    },
    /// A command is not on the search path.
    CommandNotFound {
        /// The command.
        command: String,
    },
    /// The Git hook could not be installed.
    HookInstall {
        /// What went wrong.
        message: String,
    },
    /// A foreign Git hook is already in place.
    HookExists {
        /// Where it is.
        path: String,
    },
    /// Reading or writing failed.
    Io {
        /// What was being done.
        message: String,
        /// The text of the underlying error.
        source: String,
    },
    /// The pre-commit framework is not installed.
    PreCommitNotFound,
    /// The pre-commit framework has no configuration file.
    PreCommitConfigNotFound {
        /// Where the file was expected.
        path: String,
    },
    /// A state that should be unreachable.
    Internal {
        /// What was observed.
        message: String,
    },
}

/// The exit code for configuration problems.
pub const EXIT_CONFIG: i32 = 78;

/// The exit code for problems with the repository.
pub const EXIT_DATA: i32 = 65;

/// The exit code of a command that ran over its time budget.
pub const EXIT_TIMEOUT: i32 = 124;

impl Error {
    /// The message of the error.
    pub open spec fn spec_message(&self) -> Seq<char> {
        match self {
            Error::ConfigNotFound { path } => "Configuration file not found: "@ + path@,
            Error::ConfigParse { message, .. } => "Failed to parse configuration: "@ + message@,
            Error::ConfigInvalid { field, message } => "Invalid configuration: "@ + field@ + " - "@
                + message@,
            Error::NotGitRepo => "Not in a Git repository"@,
            Error::GitOperation { operation, message } => "Git operation failed: "@ + operation@
                + " - "@ + message@,
            Error::GitHooksDir => "Failed to detect Git hooks directory"@,
            Error::CheckNotFound { name } => "Check not found: "@ + name@,
            Error::CheckFailed { name, message, .. } => "Check '"@ + name@ + "' failed: "@
                + message@,
            Error::CheckTimeout { name, timeout } => "Check '"@ + name@ + "' timed out after "@
                + timeout@,
            Error::CommandNotFound { command } => "Command not found: "@ + command@,
            Error::HookInstall { message } => "Failed to install Git hook: "@ + message@,
            Error::HookExists { path } => "Git hook already exists at "@ + path@
                + ". Use --force to overwrite."@,
            Error::Io { message, .. } => "I/O error: "@ + message@,
            Error::PreCommitNotFound =>
                "Pre-commit framework not found. Install with: pip install pre-commit"@,
            Error::PreCommitConfigNotFound { path } => "Pre-commit config not found: "@ + path@,
            Error::Internal { message } => "Internal error: "@ + message@,
        }
    }

    /// Whether the user can correct the error.
    pub open spec fn spec_is_user_error(&self) -> bool {
        self is ConfigNotFound || self is ConfigInvalid || self is NotGitRepo || self is HookExists
            || self is PreCommitNotFound || self is PreCommitConfigNotFound
    }

    /// The exit code that goes with the error.
    pub open spec fn spec_exit_code(&self) -> i32 {
        match self {
            Error::CheckFailed { exit_code, .. } => match exit_code {
                Some(code) => *code,
                None => 1,
            },
            Error::CheckTimeout { .. } => EXIT_TIMEOUT,
            Error::ConfigNotFound { .. } | Error::ConfigParse { .. } | Error::ConfigInvalid {
                ..
            } => EXIT_CONFIG,
            Error::NotGitRepo | Error::GitOperation { .. } | Error::GitHooksDir => EXIT_DATA,
            _ => 1,
        }
    }

    /// A parse error without an underlying error.
    pub fn config_parse(message: &str) -> (error: Self)
        ensures
            error matches Error::ConfigParse { message: m, source } && m@ == message@
                && source is None,
    {
        Error::ConfigParse { message: message.to_string(), source: None }
    }

    /// A parse error that keeps the text of the underlying error.
    pub fn config_parse_with_source(message: &str, source: &str) -> (error: Self)
        ensures
            error matches Error::ConfigParse { message: m, source: Some(s) } && m@ == message@
                && s@ == source@,
    {
        Error::ConfigParse { message: message.to_string(), source: Some(source.to_string()) }
    }

    /// An I/O error: what was being done, and the text of what went wrong.
    pub fn io(message: &str, source: &str) -> (error: Self)
        ensures
            error matches Error::Io { message: m, source: s } && m@ == message@ && s@ == source@,
    {
        Error::Io { message: message.to_string(), source: source.to_string() }
    }

    /// A failed Git operation.
    pub fn git(operation: &str, message: &str) -> (error: Self)
        ensures
            error matches Error::GitOperation { operation: o, message: m } && o@ == operation@
                && m@ == message@,
    {
        Error::GitOperation { operation: operation.to_string(), message: message.to_string() }
    }

    /// A failed check.
    pub fn check_failed(name: &str, message: &str, exit_code: Option<i32>) -> (error: Self)
        ensures
            error matches Error::CheckFailed { name: n, message: m, exit_code: c } && n@ == name@
                && m@ == message@ && c == exit_code,
    {
        Error::CheckFailed { name: name.to_string(), message: message.to_string(), exit_code }
    }

    /// Whether the user can correct the error.
    pub fn is_user_error(&self) -> (user: bool)
        ensures
            user == self.spec_is_user_error(),
    {
        match self {
            Error::ConfigNotFound { .. }
            | Error::ConfigInvalid { .. }
            | Error::NotGitRepo
            | Error::HookExists { .. }
            | Error::PreCommitNotFound
            | Error::PreCommitConfigNotFound { .. } => true,
            _ => false,
        }
    }

    /// The exit code that goes with the error.
    pub fn exit_code(&self) -> (code: i32)
        ensures
            code == self.spec_exit_code(),
    {
        match self {
            Error::CheckFailed { exit_code, .. } => match exit_code {
                Some(code) => *code,
                None => 1,
            },
            Error::CheckTimeout { .. } => EXIT_TIMEOUT,
            Error::ConfigNotFound { .. } | Error::ConfigParse { .. } | Error::ConfigInvalid {
                ..
            } => EXIT_CONFIG,
            Error::NotGitRepo | Error::GitOperation { .. } | Error::GitHooksDir => EXIT_DATA,
            _ => 1,
        }
    }

    /// The text of the underlying error, where one was kept.
    pub fn source(&self) -> (text: Option<&str>)
        ensures
            match text {
                Some(t) => (self matches Error::Io { source, .. } && t@ == source@) || (
                self matches Error::ConfigParse { source: Some(s), .. } && t@ == s@),
                None => !(self is Io) && !(self matches Error::ConfigParse { source: Some(_), .. }),
            },
    {
        match self {
            Error::Io { source, .. } => Some(source.as_str()),
            Error::ConfigParse { source: Some(s), .. } => Some(s.as_str()),
            _ => None,
        }
    }

    /// The message of the error.
    pub fn to_string(&self) -> (text: String)
        ensures
            text@ == self.spec_message(),
    {
        match self {
            Error::ConfigNotFound { path } => concat("Configuration file not found: ", path),
            Error::ConfigParse { message, .. } => concat(
                "Failed to parse configuration: ",
                message,
            ),
            Error::ConfigInvalid { field, message } => {
                let head = concat("Invalid configuration: ", field);
                let head = concat(head.as_str(), " - ");
                concat(head.as_str(), message)
            },
            Error::NotGitRepo => "Not in a Git repository".to_string(),
            Error::GitOperation { operation, message } => {
                let head = concat("Git operation failed: ", operation);
                let head = concat(head.as_str(), " - ");
                concat(head.as_str(), message)
            },
            Error::GitHooksDir => "Failed to detect Git hooks directory".to_string(),
            Error::CheckNotFound { name } => concat("Check not found: ", name),
            Error::CheckFailed { name, message, .. } => {
                let head = concat("Check '", name);
                let head = concat(head.as_str(), "' failed: ");
                concat(head.as_str(), message)
            },
            Error::CheckTimeout { name, timeout } => {
                let head = concat("Check '", name);
                let head = concat(head.as_str(), "' timed out after ");
                concat(head.as_str(), timeout)
            },
            Error::CommandNotFound { command } => concat("Command not found: ", command),
            Error::HookInstall { message } => concat("Failed to install Git hook: ", message),
            Error::HookExists { path } => {
                let head = concat("Git hook already exists at ", path);
                concat(head.as_str(), ". Use --force to overwrite.")
            },
            Error::Io { message, .. } => concat("I/O error: ", message),
            Error::PreCommitNotFound =>
                "Pre-commit framework not found. Install with: pip install pre-commit".to_string(),
            Error::PreCommitConfigNotFound { path } => concat(
                "Pre-commit config not found: ",
                path,
            ),
            Error::Internal { message } => concat("Internal error: ", message),
        }
    }
}

} // verus!
