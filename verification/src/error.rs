//! The failures that end a run, and the text shown for each.

use vstd::prelude::*;
use vstd::string::StringExecFns;

verus! {

/// Why a run ended without a timestamp.
#[derive(Debug, PartialEq, Eq)]
pub enum ApplicationError {
    /// The named binary is not resolvable on the execution path.
    CommandNotFound { command_name: String },
    /// The named command did not run to a successful end.
    CommandRunFailed { command_name: String },
    /// The named command could not be started at all.
    CommandSpawnFailed { command_name: String },
    /// The captured output is not valid UTF-8.
    StringFormatError,
    /// A search pattern was rejected when it was compiled.
    InvalidPattern,
    /// The named pattern matches nowhere in the text searched.
    PatternNotFound { pattern: String },
}

/// The mathematical value of an [`ApplicationError`]: the same variants over
/// character sequences.
pub enum ErrorModel {
    CommandNotFound { command_name: Seq<char> },
    CommandRunFailed { command_name: Seq<char> },
    CommandSpawnFailed { command_name: Seq<char> },
    StringFormatError,
    InvalidPattern,
    PatternNotFound { pattern: Seq<char> },
}

impl View for ApplicationError {
    type V = ErrorModel;

    open spec fn view(&self) -> ErrorModel {
        match self {
            ApplicationError::CommandNotFound { command_name } => ErrorModel::CommandNotFound {
                command_name: command_name@,
            },
            ApplicationError::CommandRunFailed { command_name } => ErrorModel::CommandRunFailed {
                command_name: command_name@,
            },
            ApplicationError::CommandSpawnFailed { command_name } => ErrorModel::CommandSpawnFailed {
                command_name: command_name@,
            },
            ApplicationError::StringFormatError => ErrorModel::StringFormatError,
            ApplicationError::InvalidPattern => ErrorModel::InvalidPattern,
            ApplicationError::PatternNotFound { pattern } => ErrorModel::PatternNotFound {
                pattern: pattern@,
            },
        }
    }
}

/// The text shown for an error.
pub open spec fn message_of(e: ErrorModel) -> Seq<char> {
    match e {
        ErrorModel::CommandNotFound { command_name } => "command not found: "@ + command_name,
        ErrorModel::CommandRunFailed { command_name } => "command execution failed: "@
            + command_name,
        ErrorModel::CommandSpawnFailed { command_name } => "command could not be started: "@
            + command_name,
        ErrorModel::StringFormatError => "string format error"@,
        ErrorModel::InvalidPattern => "regex invalid pattern"@,
        ErrorModel::PatternNotFound { pattern } => "pattern not found "@ + pattern,
    }
}

/// The view of a text-or-error result.
pub open spec fn result_model(res: Result<String, ApplicationError>) -> Result<
    Seq<char>,
    ErrorModel,
> {
    match res {
        Ok(text) => Ok(text@),
        Err(e) => Err(e@),
    }
}

impl ApplicationError {
    /// Renders the error as the one-line text shown to the user.
    pub fn message(&self) -> (text: String)
        ensures
            text@ == message_of(self@),
    {
        match self {
            ApplicationError::CommandNotFound { command_name } => String::from_str(
                "command not found: ",
            ).concat(command_name.as_str()),
            ApplicationError::CommandRunFailed { command_name } => String::from_str(
                "command execution failed: ",
            ).concat(command_name.as_str()),
            ApplicationError::CommandSpawnFailed { command_name } => String::from_str(
                "command could not be started: ",
            ).concat(command_name.as_str()),
            ApplicationError::StringFormatError => String::from_str("string format error"),
            ApplicationError::InvalidPattern => String::from_str("regex invalid pattern"),
            ApplicationError::PatternNotFound { pattern } => String::from_str(
                "pattern not found ",
            ).concat(pattern.as_str()),
        }
    }
}

} // verus!
