//! Scheduling value types.
use vstd::prelude::*;

use super::duration::DurationSeconds;
use super::primitives::UtcTimestamp;

verus! {

/// Who keeps a job's deadline.
#[derive(Clone, Copy, Debug, PartialEq, Eq, Structural)]
pub enum RuntimeTier {
    /// The supervisor of the login session.
    Session,
    /// A service of the operating system.
    Durable,
}

/// What recovery does after a missed deadline.
#[derive(Clone, Copy, Debug, PartialEq, Eq, Structural)]
pub enum MissedPolicy {
    /// Leave the job to the user.
    Hold,
    /// Run the latest occurrence at once.
    RunLatest,
    /// Wait for the next occurrence.
    Skip,
}

/// Which instant a repeated local time means.
#[derive(Clone, Copy, Debug, PartialEq, Eq, Structural)]
pub enum DstResolution {
    /// Neither: the input is refused.
    Reject,
    /// The first.
    Earlier,
    /// The second.
    Later,
}

/// When a job is due.
#[derive(Debug, PartialEq, Eq)]
pub enum Schedule {
    /// Once, a duration after it was submitted.
    OneShotRelative { duration: DurationSeconds, persisted_due_utc: UtcTimestamp },
    /// Once, at a calendar time.
    OneShotAbsolute {
        original_input: String,
        timezone: String,
        timezone_database_version: String,
        resolved_due_utc: UtcTimestamp,
        dst_resolution: DstResolution,
    },
    /// At an anchor and at a fixed interval from then on.
    RecurringInterval { interval: DurationSeconds, persisted_anchor_utc: UtcTimestamp },
}

/// A schedule with its texts as character sequences.
pub enum ScheduleModel {
    OneShotRelative { duration: DurationSeconds, persisted_due_utc: UtcTimestamp },
    OneShotAbsolute {
        original_input: Seq<char>,
        timezone: Seq<char>,
        timezone_database_version: Seq<char>,
        resolved_due_utc: UtcTimestamp,
        dst_resolution: DstResolution,
    },
    RecurringInterval { interval: DurationSeconds, persisted_anchor_utc: UtcTimestamp },
}

impl ScheduleModel {
    /// When the schedule is first due.
    pub open spec fn next_due(self) -> UtcTimestamp {
        match self {
            ScheduleModel::OneShotRelative { persisted_due_utc, .. } => persisted_due_utc,
            ScheduleModel::OneShotAbsolute { resolved_due_utc, .. } => resolved_due_utc,
            ScheduleModel::RecurringInterval { persisted_anchor_utc, .. } => persisted_anchor_utc,
        }
    }

    /// The time zone database behind the schedule, where it has one.
    pub open spec fn database_version(self) -> Seq<char> {
        match self {
            ScheduleModel::OneShotAbsolute { timezone_database_version, .. } => {
                timezone_database_version
            },
            _ => "not-applicable"@,
        }
    }
}

impl View for Schedule {
    type V = ScheduleModel;

    open spec fn view(&self) -> ScheduleModel {
        match *self {
            Schedule::OneShotRelative { duration, persisted_due_utc } => {
                ScheduleModel::OneShotRelative { duration, persisted_due_utc }
            },
            Schedule::OneShotAbsolute {
                original_input,
                timezone,
                timezone_database_version,
                resolved_due_utc,
                dst_resolution,
            } => ScheduleModel::OneShotAbsolute {
                original_input: original_input@,
                timezone: timezone@,
                timezone_database_version: timezone_database_version@,
                resolved_due_utc,
                dst_resolution,
            },
            Schedule::RecurringInterval { interval, persisted_anchor_utc } => {
                ScheduleModel::RecurringInterval { interval, persisted_anchor_utc }
            },
        }
    }
}

impl Clone for Schedule {
    fn clone(&self) -> (r: Schedule)
        ensures
            r@ == self@,
    {
        match self {
            Schedule::OneShotRelative { duration, persisted_due_utc } => {
                Schedule::OneShotRelative {
                    duration: *duration,
                    persisted_due_utc: *persisted_due_utc,
                }
            },
            Schedule::OneShotAbsolute {
                original_input,
                timezone,
                timezone_database_version,
                resolved_due_utc,
                dst_resolution,
            } => Schedule::OneShotAbsolute {
                original_input: original_input.clone(),
                timezone: timezone.clone(),
                timezone_database_version: timezone_database_version.clone(),
                resolved_due_utc: *resolved_due_utc,
                dst_resolution: *dst_resolution,
            },
            Schedule::RecurringInterval { interval, persisted_anchor_utc } => {
                Schedule::RecurringInterval {
                    interval: *interval,
                    persisted_anchor_utc: *persisted_anchor_utc,
                }
            },
        }
    }
}

impl Schedule {
    /// A job that is due once, a duration after it was submitted.
    pub fn one_shot_relative(
        duration: DurationSeconds,
        persisted_due_utc: UtcTimestamp,
    ) -> (r: Schedule)
        ensures
            r@ == (ScheduleModel::OneShotRelative { duration, persisted_due_utc }),
    {
        Schedule::OneShotRelative { duration, persisted_due_utc }
    }

    /// A job that is due once, at a calendar time.
    pub fn one_shot_absolute(
        original_input: String,
        timezone: String,
        timezone_database_version: String,
        resolved_due_utc: UtcTimestamp,
        dst_resolution: DstResolution,
    ) -> (r: Schedule)
        ensures
            r@ == (ScheduleModel::OneShotAbsolute {
                original_input: original_input@,
                timezone: timezone@,
                timezone_database_version: timezone_database_version@,
                resolved_due_utc,
                dst_resolution,
            }),
    {
        Schedule::OneShotAbsolute {
            original_input,
            timezone,
            timezone_database_version,
            resolved_due_utc,
            dst_resolution,
        }
    }

    /// When the schedule is first due.
    pub fn next_due_utc(&self) -> (r: UtcTimestamp)
        ensures
            r == self@.next_due(),
    {
        match self {
            Schedule::OneShotRelative { persisted_due_utc, .. } => *persisted_due_utc,
            Schedule::OneShotAbsolute { resolved_due_utc, .. } => *resolved_due_utc,
            Schedule::RecurringInterval { persisted_anchor_utc, .. } => *persisted_anchor_utc,
        }
    }

    /// The version of the time zone database that a calendar time was resolved with.
    pub fn timezone_database_version(&self) -> (r: &str)
        ensures
            r@ == self@.database_version(),
    {
        match self {
            Schedule::OneShotAbsolute { timezone_database_version, .. } => {
                timezone_database_version.as_str()
            },
            Schedule::OneShotRelative { .. } => "not-applicable",
            Schedule::RecurringInterval { .. } => "not-applicable",
        }
    }
}

/// Why a schedule was refused.
#[derive(Clone, Copy, Debug, PartialEq, Eq, Structural)]
pub enum ScheduleError {
    /// The deadline is not in the future.
    DeadlineNotFuture,
}

impl ScheduleError {
    /// The error as a message.
    pub fn to_string(&self) -> (text: String)
        ensures
            text@ == "the resolved deadline must be in the future"@,
    {
        "the resolved deadline must be in the future".to_owned()
    }
}

} // verus!
