//! Command-line failures.
use vstd::prelude::*;

use super::exit;
use crate::application::history::{run_output_message, RunOutputError};
use crate::application::list::{management_message, ManagementError};
use crate::text::text_eq;

verus! {

/// A failure with the exit status and the code under which it is reported.
#[derive(Debug, PartialEq, Eq)]
pub struct CliError {
    pub exit: u8,
    pub code: &'static str,
    pub message: String,
    pub json: bool,
}

impl CliError {
    /// The failure has the exit status and the code.
    pub open spec fn is(self, exit: u8, code: Seq<char>) -> bool {
        self.exit == exit && self.code@ == code
    }

    /// The command line is not valid.
    pub fn usage(json: bool, message: String) -> (r: CliError)
        ensures
            r.is(2, "INVALID_ARGUMENT"@),
            r.message == message,
            r.json == json,
    {
        CliError { exit: exit::usage(), code: "INVALID_ARGUMENT", message, json }
    }

    /// A feature of the platform is missing.
    pub fn capability(json: bool, message: String) -> (r: CliError)
        ensures
            r.is(5, "CAPABILITY_UNAVAILABLE"@),
            r.message == message,
            r.json == json,
    {
        CliError { exit: exit::capability(), code: "CAPABILITY_UNAVAILABLE", message, json }
    }

    /// The job is missing or ambiguous.
    pub fn not_found(json: bool, message: String) -> (r: CliError)
        ensures
            r.is(3, "JOB_NOT_FOUND"@),
            r.message == message,
            r.json == json,
    {
        CliError { exit: exit::not_found(), code: "JOB_NOT_FOUND", message, json }
    }

    /// The state of the job does not allow the operation.
    pub fn conflict(json: bool, message: String) -> (r: CliError)
        ensures
            r.is(4, "STATE_CONFLICT"@),
            r.message == message,
            r.json == json,
    {
        CliError { exit: exit::conflict(), code: "STATE_CONFLICT", message, json }
    }

    /// The state database failed.
    pub fn storage(json: bool, message: String) -> (r: CliError)
        ensures
            r.is(10, "STORAGE_ERROR"@),
            r.message == message,
            r.json == json,
    {
        CliError { exit: exit::storage(), code: "STORAGE_ERROR", message, json }
    }

    /// Ownership or permissions are wrong.
    pub fn permission(json: bool, message: String) -> (r: CliError)
        ensures
            r.is(12, "PERMISSION_ERROR"@),
            r.message == message,
            r.json == json,
    {
        CliError { exit: exit::permission(), code: "PERMISSION_ERROR", message, json }
    }

    /// A process or the supervisor failed.
    pub fn supervision(json: bool, message: String) -> (r: CliError)
        ensures
            r.is(11, "SUPERVISION_ERROR"@),
            r.message == message,
            r.json == json,
    {
        CliError { exit: exit::supervision(), code: "SUPERVISION_ERROR", message, json }
    }

    /// Something unexpected happened.
    pub fn internal(json: bool, message: String) -> (r: CliError)
        ensures
            r.is(70, "INTERNAL_ERROR"@),
            r.message == message,
            r.json == json,
    {
        CliError { exit: exit::internal(), code: "INTERNAL_ERROR", message, json }
    }
}

/// The failure is that of a management error.
pub open spec fn reports_management(error: ManagementError, json: bool, r: CliError) -> bool {
    &&& r.message@ == management_message(error)
    &&& r.json == json
    &&& match error {
        ManagementError::NotFound => r.is(3, "JOB_NOT_FOUND"@),
        ManagementError::Ambiguous(_) => r.is(3, "JOB_NOT_FOUND"@),
        ManagementError::InvalidPrefix => r.is(3, "JOB_NOT_FOUND"@),
        ManagementError::StateConflict(_) => r.is(4, "STATE_CONFLICT"@),
        ManagementError::ConfirmationRequired => r.is(4, "STATE_CONFLICT"@),
        ManagementError::InvalidLimit => r.is(2, "INVALID_ARGUMENT"@),
        ManagementError::Store(_) => r.is(10, "STORAGE_ERROR"@),
    }
}

/// The failure of a management error.
pub fn management_cli_error(json: bool, error: ManagementError) -> (r: CliError)
    ensures
        reports_management(error, json, r),
{
    let message: String = error.to_string();
    match error {
        ManagementError::NotFound => CliError::not_found(json, message),
        ManagementError::Ambiguous(_) => CliError::not_found(json, message),
        ManagementError::InvalidPrefix => CliError::not_found(json, message),
        ManagementError::StateConflict(_) => CliError::conflict(json, message),
        ManagementError::ConfirmationRequired => CliError::conflict(json, message),
        ManagementError::InvalidLimit => CliError::usage(json, message),
        ManagementError::Store(_) => CliError::storage(json, message),
    }
}

/// The failure is that of reading the output of a run.
pub open spec fn reports_output(error: RunOutputError, json: bool, r: CliError) -> bool {
    &&& r.message@ == run_output_message(error)
    &&& r.json == json
    &&& if error is Read || error is Store {
        r.is(10, "STORAGE_ERROR"@)
    } else {
        r.is(3, "JOB_NOT_FOUND"@)
    }
}

/// The failure of reading the output of a run.
pub fn output_cli_error(json: bool, error: RunOutputError) -> (r: CliError)
    ensures
        reports_output(error, json, r),
{
    let message: String = error.to_string();
    match error {
        RunOutputError::Read(_) => CliError::storage(json, message),
        RunOutputError::Store(_) => CliError::storage(json, message),
        _ => CliError::not_found(json, message),
    }
}

/// What the user can do about a failure, where that is known.
pub fn remediation(code: &str) -> (r: Option<&'static str>)
    ensures
        match r {
            Some(text) => {
                ||| code@ == "JOB_NOT_FOUND"@ && text@ == "Run `atx list` to inspect job IDs."@
                ||| code@ == "STATE_CONFLICT"@ && text@
                    == "Run `atx show JOB` to inspect its current state."@
            },
            None => code@ != "JOB_NOT_FOUND"@ && code@ != "STATE_CONFLICT"@,
        },
{
    if text_eq(code, "JOB_NOT_FOUND") {
        Some("Run `atx list` to inspect job IDs.")
    } else if text_eq(code, "STATE_CONFLICT") {
        Some("Run `atx show JOB` to inspect its current state.")
    } else {
        None
    }
}

} // verus!
