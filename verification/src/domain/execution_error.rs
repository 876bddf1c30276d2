//! Why an execution specification is refused.
use vstd::prelude::*;

use crate::text::{copy_text, push_text};

verus! {

/// Why an execution specification was refused.
#[derive(Clone, Copy, Debug, PartialEq, Eq)]
pub enum ExecutionError {
    /// There is no argument.
    EmptyArguments,
    /// A shell command is not exactly one string.
    ShellArgumentCount,
    /// A text holds a NUL.
    ContainsNul(&'static str),
    /// An argument is too large.
    ArgumentTooLarge,
    /// The total is too large.
    SerializedSizeExceeded,
    /// The working directory is not absolute.
    WorkingDirectoryNotAbsolute,
    /// A shell path is not absolute or does not apply.
    InvalidShellPath,
    /// An environment variable has a malformed name.
    InvalidEnvironmentKey,
    /// A terminal device path is empty or holds a NUL.
    InvalidNotifyTty,
}

/// The message of an execution error.
pub open spec fn execution_error_message(error: ExecutionError) -> Seq<char> {
    match error {
        ExecutionError::EmptyArguments => "command arguments cannot be empty"@,
        ExecutionError::ShellArgumentCount => "shell mode requires exactly one command string"@,
        ExecutionError::ContainsNul(what) => what@ + " cannot contain NUL"@,
        ExecutionError::ArgumentTooLarge => "one command argument exceeds 128 KiB"@,
        ExecutionError::SerializedSizeExceeded => "argv and environment exceed 1 MiB"@,
        ExecutionError::WorkingDirectoryNotAbsolute => "working directory must be absolute"@,
        ExecutionError::InvalidShellPath => {
            "shell path must be absolute and is only valid in shell mode"@
        },
        ExecutionError::InvalidEnvironmentKey => "invalid environment variable name"@,
        ExecutionError::InvalidNotifyTty => {
            "terminal device path cannot be empty or contain NUL"@
        },
    }
}

impl ExecutionError {
    /// The error as a message.
    pub fn to_string(&self) -> (text: String)
        ensures
            text@ == execution_error_message(*self),
    {
        match self {
            ExecutionError::EmptyArguments => "command arguments cannot be empty".to_owned(),
            ExecutionError::ShellArgumentCount => {
                "shell mode requires exactly one command string".to_owned()
            },
            ExecutionError::ContainsNul(what) => {
                let mut out: String = copy_text(what);
                push_text(&mut out, " cannot contain NUL");
                out
            },
            ExecutionError::ArgumentTooLarge => "one command argument exceeds 128 KiB".to_owned(),
            ExecutionError::SerializedSizeExceeded => "argv and environment exceed 1 MiB".to_owned(),
            ExecutionError::WorkingDirectoryNotAbsolute => {
                "working directory must be absolute".to_owned()
            },
            ExecutionError::InvalidShellPath => {
                "shell path must be absolute and is only valid in shell mode".to_owned()
            },
            ExecutionError::InvalidEnvironmentKey => "invalid environment variable name".to_owned(),
            ExecutionError::InvalidNotifyTty => {
                "terminal device path cannot be empty or contain NUL".to_owned()
            },
        }
    }
}

} // verus!
