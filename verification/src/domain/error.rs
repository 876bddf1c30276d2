//! Stable domain error taxonomy.
use vstd::prelude::*;

verus! {

/// What kind of failure an error is.
#[derive(Clone, Copy, Debug, PartialEq, Eq, Structural)]
pub enum ErrorCode {
    InvalidIdentifier,
    InvalidValue,
    InvalidTransition,
    RevisionConflict,
    TimeOutOfRange,
    JobNotFound,
    AmbiguousJob,
    StorageFailure,
    ExecutionFailure,
    PlatformUnavailable,
    PermissionDenied,
    InternalFailure,
}

impl ErrorCode {
    /// The name under which the code is written.
    pub fn wire_name(self) -> (r: &'static str)
        ensures
            r@ == match self {
                ErrorCode::InvalidIdentifier => "INVALID_IDENTIFIER"@,
                ErrorCode::InvalidValue => "INVALID_VALUE"@,
                ErrorCode::InvalidTransition => "INVALID_TRANSITION"@,
                ErrorCode::RevisionConflict => "REVISION_CONFLICT"@,
                ErrorCode::TimeOutOfRange => "TIME_OUT_OF_RANGE"@,
                ErrorCode::JobNotFound => "JOB_NOT_FOUND"@,
                ErrorCode::AmbiguousJob => "AMBIGUOUS_JOB"@,
                ErrorCode::StorageFailure => "STORAGE_FAILURE"@,
                ErrorCode::ExecutionFailure => "EXECUTION_FAILURE"@,
                ErrorCode::PlatformUnavailable => "PLATFORM_UNAVAILABLE"@,
                ErrorCode::PermissionDenied => "PERMISSION_DENIED"@,
                ErrorCode::InternalFailure => "INTERNAL_FAILURE"@,
            },
    {
        match self {
            ErrorCode::InvalidIdentifier => "INVALID_IDENTIFIER",
            ErrorCode::InvalidValue => "INVALID_VALUE",
            ErrorCode::InvalidTransition => "INVALID_TRANSITION",
            ErrorCode::RevisionConflict => "REVISION_CONFLICT",
            ErrorCode::TimeOutOfRange => "TIME_OUT_OF_RANGE",
            ErrorCode::JobNotFound => "JOB_NOT_FOUND",
            ErrorCode::AmbiguousJob => "AMBIGUOUS_JOB",
            ErrorCode::StorageFailure => "STORAGE_FAILURE",
            ErrorCode::ExecutionFailure => "EXECUTION_FAILURE",
            ErrorCode::PlatformUnavailable => "PLATFORM_UNAVAILABLE",
            ErrorCode::PermissionDenied => "PERMISSION_DENIED",
            ErrorCode::InternalFailure => "INTERNAL_FAILURE",
        }
    }
}

} // verus!
