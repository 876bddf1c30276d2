//! Stable process exit-code mapping.
use vstd::prelude::*;

verus! {

/// The command line is not valid.
pub fn usage() -> (r: u8)
    ensures
        r == 2,
{
    2
}

/// A feature of the platform is missing.
pub fn capability() -> (r: u8)
    ensures
        r == 5,
{
    5
}

/// The job is missing or ambiguous.
pub fn not_found() -> (r: u8)
    ensures
        r == 3,
{
    3
}

/// The state of the job does not allow the operation.
pub fn conflict() -> (r: u8)
    ensures
        r == 4,
{
    4
}

/// The state database failed.
pub fn storage() -> (r: u8)
    ensures
        r == 10,
{
    10
}

/// A process or the supervisor failed.
pub fn supervision() -> (r: u8)
    ensures
        r == 11,
{
    11
}

/// Ownership or permissions are wrong.
pub fn permission() -> (r: u8)
    ensures
        r == 12,
{
    12
}

/// Something unexpected happened.
pub fn internal() -> (r: u8)
    ensures
        r == 70,
{
    70
}

} // verus!
