//! Wall and suspend-aware elapsed clock ports.
use vstd::prelude::*;

use crate::domain::primitives::UtcTimestamp;
use crate::domain::recurrence::ElapsedInstant;

verus! {

/// Why a clock gave no reading.
#[derive(Clone, Copy, Debug, PartialEq, Eq, Structural)]
pub enum ClockError {
    /// The platform has no such clock.
    Unavailable,
    /// The reading cannot be represented.
    OutOfRange,
}

/// The message of a clock error.
pub open spec fn clock_error_message(error: ClockError) -> Seq<char> {
    match error {
        ClockError::Unavailable => "required platform clock is unavailable"@,
        ClockError::OutOfRange => "platform clock returned an out-of-range value"@,
    }
}

impl ClockError {
    /// The error as a message.
    pub fn to_string(&self) -> (text: String)
        ensures
            text@ == clock_error_message(*self),
    {
        match self {
            ClockError::Unavailable => "required platform clock is unavailable".to_owned(),
            ClockError::OutOfRange => "platform clock returned an out-of-range value".to_owned(),
        }
    }
}

/// A clock that shows the time of day.
pub trait WallClock {
    fn now_utc(&self) -> Result<UtcTimestamp, ClockError>;
}

/// A clock that only moves forward, also while the machine sleeps.
pub trait ElapsedClock {
    fn now_elapsed(&self) -> Result<ElapsedInstant, ClockError>;

    fn boot_identity(&self) -> Result<String, ClockError>;
}

} // verus!
