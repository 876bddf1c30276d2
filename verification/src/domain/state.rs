//! Job and run states.
use vstd::prelude::*;

verus! {

/// Where a job stands.
#[derive(Clone, Copy, Debug, PartialEq, Eq, Hash, Structural)]
pub enum JobState {
    Scheduled,
    Waiting,
    Starting,
    Running,
    CancelRequested,
    Succeeded,
    Failed,
    Cancelled,
    Interrupted,
    Missed,
}

/// Where a run stands.
#[derive(Clone, Copy, Debug, PartialEq, Eq, Hash, Structural)]
pub enum RunState {
    Starting,
    Running,
    CancelRequested,
    Succeeded,
    Failed,
    Cancelled,
    Interrupted,
}

impl JobState {
    /// Every job state.
    pub const ALL: [JobState; 10] = [
        JobState::Scheduled,
        JobState::Waiting,
        JobState::Starting,
        JobState::Running,
        JobState::CancelRequested,
        JobState::Succeeded,
        JobState::Failed,
        JobState::Cancelled,
        JobState::Interrupted,
        JobState::Missed,
    ];

    /// The job is done.
    pub open spec fn terminal(self) -> bool {
        ||| self == JobState::Succeeded
        ||| self == JobState::Failed
        ||| self == JobState::Cancelled
        ||| self == JobState::Interrupted
        ||| self == JobState::Missed
    }

    /// Whether the job is done.
    pub fn is_terminal(self) -> (r: bool)
        ensures
            r == self.terminal(),
    {
        matches!(
            self,
            JobState::Succeeded | JobState::Failed | JobState::Cancelled | JobState::Interrupted
                | JobState::Missed
        )
    }
}

impl RunState {
    /// Every run state.
    pub const ALL: [RunState; 7] = [
        RunState::Starting,
        RunState::Running,
        RunState::CancelRequested,
        RunState::Succeeded,
        RunState::Failed,
        RunState::Cancelled,
        RunState::Interrupted,
    ];

    /// The run is done.
    pub open spec fn terminal(self) -> bool {
        ||| self == RunState::Succeeded
        ||| self == RunState::Failed
        ||| self == RunState::Cancelled
        ||| self == RunState::Interrupted
    }

    /// Whether the run is done.
    pub fn is_terminal(self) -> (r: bool)
        ensures
            r == self.terminal(),
    {
        matches!(
            self,
            RunState::Succeeded | RunState::Failed | RunState::Cancelled | RunState::Interrupted
        )
    }
}

} // verus!
