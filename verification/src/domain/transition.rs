//! Legal state transitions.
use vstd::prelude::*;

use super::state::{JobState, RunState};
use crate::text::{contains_char, copy_text};

verus! {

/// Who changes a state.
#[derive(Clone, Copy, Debug, PartialEq, Eq, Structural)]
pub enum TransitionActor {
    Cli,
    Supervisor,
    Monitor,
    Recovery,
    Retention,
}

/// A change of state that was allowed.
#[derive(Debug, PartialEq, Eq)]
pub struct Transition<S> {
    from: S,
    to: S,
    actor: TransitionActor,
    reason: String,
}

/// Why a change of state was refused.
#[derive(Clone, Copy, Debug, PartialEq, Eq, Structural)]
pub enum TransitionError {
    /// The states do not follow each other.
    Illegal,
    /// The reason is empty or holds a NUL.
    InvalidReason,
    /// A run ended by cancellation that nobody had requested.
    CancellationNotCommitted,
}

/// The message of a transition error.
pub open spec fn transition_error_message(error: TransitionError) -> Seq<char> {
    match error {
        TransitionError::Illegal => "illegal state transition"@,
        TransitionError::InvalidReason => {
            "transition reason must be non-empty and contain no NUL"@
        },
        TransitionError::CancellationNotCommitted => {
            "cancellation was not committed before termination"@
        },
    }
}

impl TransitionError {
    /// The error as a message.
    pub fn to_string(&self) -> (text: String)
        ensures
            text@ == transition_error_message(*self),
    {
        match self {
            TransitionError::Illegal => "illegal state transition".to_owned(),
            TransitionError::InvalidReason => {
                "transition reason must be non-empty and contain no NUL".to_owned()
            },
            TransitionError::CancellationNotCommitted => {
                "cancellation was not committed before termination".to_owned()
            },
        }
    }
}

// ---------------------------------------------------------------------------------------------
// The rules
// ---------------------------------------------------------------------------------------------
/// `to` may follow `from` in a job that runs once.
pub open spec fn one_shot_legal(from: JobState, to: JobState) -> bool {
    match from {
        JobState::Scheduled => to == JobState::Waiting || to == JobState::CancelRequested || to
            == JobState::Missed,
        JobState::Waiting => to == JobState::Starting || to == JobState::CancelRequested || to
            == JobState::Missed,
        JobState::Starting => to == JobState::Running || to == JobState::Failed || to
            == JobState::CancelRequested || to == JobState::Interrupted,
        JobState::Running => to == JobState::Succeeded || to == JobState::Failed || to
            == JobState::CancelRequested || to == JobState::Interrupted,
        JobState::CancelRequested => to == JobState::Cancelled || to == JobState::Succeeded || to
            == JobState::Failed || to == JobState::Interrupted,
        _ => false,
    }
}

/// `to` may follow `from` in a job: a recurring one also returns to waiting once an occurrence
/// started, ended or was missed, unless it was cancelled.
pub open spec fn job_legal(from: JobState, to: JobState, recurring: bool) -> bool {
    ||| one_shot_legal(from, to)
    ||| recurring && to == JobState::Waiting && (from == JobState::Starting || from
        == JobState::Running || from == JobState::Succeeded || from == JobState::Failed || from
        == JobState::Interrupted || from == JobState::Missed)
}

/// `to` may follow `from` in a run.
pub open spec fn run_legal(from: RunState, to: RunState) -> bool {
    match from {
        RunState::Starting => to == RunState::Running || to == RunState::Failed || to
            == RunState::CancelRequested || to == RunState::Interrupted,
        RunState::Running => to == RunState::Succeeded || to == RunState::Failed || to
            == RunState::CancelRequested || to == RunState::Interrupted,
        RunState::CancelRequested => to == RunState::Cancelled || to == RunState::Succeeded || to
            == RunState::Failed || to == RunState::Interrupted,
        _ => false,
    }
}

/// The reason is not empty and holds no NUL.
pub open spec fn valid_reason(reason: Seq<char>) -> bool {
    reason.len() > 0 && !reason.contains('\0')
}

/// The result is the transition that was asked for if it is legal and has a valid reason.
pub open spec fn transition_outcome<S>(
    from: S,
    to: S,
    actor: TransitionActor,
    reason: Seq<char>,
    legal: bool,
    r: Result<Transition<S>, TransitionError>,
) -> bool {
    if !legal {
        r == Err::<Transition<S>, TransitionError>(TransitionError::Illegal)
    } else if !valid_reason(reason) {
        r == Err::<Transition<S>, TransitionError>(TransitionError::InvalidReason)
    } else {
        r matches Ok(transition) && transition.spec_from() == from && transition.spec_to() == to
            && transition.spec_actor() == actor && transition.spec_reason() == reason
    }
}

/// The state a run is in after trying to enter each of the targets in turn.
pub open spec fn run_after(current: RunState, targets: Seq<RunState>) -> RunState
    decreases targets.len(),
{
    if targets.len() == 0 {
        current
    } else {
        run_after(
            if run_legal(current, targets[0]) {
                targets[0]
            } else {
                current
            },
            targets.drop_first(),
        )
    }
}

/// A terminal run state has no successor, so no sequence of attempts leaves it.
pub proof fn lemma_run_stays_terminal(current: RunState, targets: Seq<RunState>)
    requires
        current.terminal(),
    ensures
        forall|to: RunState| !run_legal(current, to),
        run_after(current, targets) == current,
    decreases targets.len(),
{
    if targets.len() > 0 {
        lemma_run_stays_terminal(current, targets.drop_first());
    }
}

/// A terminal state of a job that runs once has no successor; a recurring job only returns to
/// waiting, and never after it was cancelled.
pub proof fn lemma_job_stays_terminal(from: JobState, to: JobState)
    requires
        from.terminal(),
    ensures
        !job_legal(from, to, false),
        job_legal(from, to, true) ==> to == JobState::Waiting && from != JobState::Cancelled,
{
}

/// A job or run is only ever cancelled after a cancellation was requested.
pub proof fn lemma_cancelled_only_after_request(
    job_from: JobState,
    recurring: bool,
    run_from: RunState,
)
    ensures
        job_legal(job_from, JobState::Cancelled, recurring) ==> job_from
            == JobState::CancelRequested,
        run_legal(run_from, RunState::Cancelled) ==> run_from == RunState::CancelRequested,
{
}

// ---------------------------------------------------------------------------------------------
// Transitions
// ---------------------------------------------------------------------------------------------
impl<S> Transition<S> {
    pub closed spec fn spec_from(self) -> S {
        self.from
    }

    pub closed spec fn spec_to(self) -> S {
        self.to
    }

    pub closed spec fn spec_actor(self) -> TransitionActor {
        self.actor
    }

    pub closed spec fn spec_reason(self) -> Seq<char> {
        self.reason@
    }
}

impl<S: Copy> Transition<S> {
    /// The state that was left.
    pub fn from(&self) -> (r: S)
        ensures
            r == self.spec_from(),
    {
        self.from
    }

    /// The state that was entered.
    pub fn to(&self) -> (r: S)
        ensures
            r == self.spec_to(),
    {
        self.to
    }

    /// Who changed the state.
    pub fn actor(&self) -> (r: TransitionActor)
        ensures
            r == self.spec_actor(),
    {
        self.actor
    }

    /// Why the state was changed.
    pub fn reason(&self) -> (r: &str)
        ensures
            r@ == self.spec_reason(),
    {
        self.reason.as_str()
    }
}

/// A transition, if it is legal and has a valid reason.
pub fn transition<S: Copy>(
    from: S,
    to: S,
    actor: TransitionActor,
    reason: &str,
    legal: bool,
) -> (r: Result<Transition<S>, TransitionError>)
    ensures
        transition_outcome(from, to, actor, reason@, legal, r),
{
    if !legal {
        return Err(TransitionError::Illegal);
    }
    if reason.unicode_len() == 0 || contains_char(reason, '\0') {
        return Err(TransitionError::InvalidReason);
    }
    Ok(Transition { from, to, actor, reason: copy_text(reason) })
}

/// Checks a change of a job's state.
pub fn job_transition(
    from: JobState,
    to: JobState,
    recurring: bool,
    actor: TransitionActor,
    reason: &str,
) -> (r: Result<Transition<JobState>, TransitionError>)
    ensures
        transition_outcome(from, to, actor, reason@, job_legal(from, to, recurring), r),
{
    let once: bool = match from {
        JobState::Scheduled => matches!(
            to,
            JobState::Waiting | JobState::CancelRequested | JobState::Missed
        ),
        JobState::Waiting => matches!(
            to,
            JobState::Starting | JobState::CancelRequested | JobState::Missed
        ),
        JobState::Starting => matches!(
            to,
            JobState::Running | JobState::Failed | JobState::CancelRequested | JobState::Interrupted
        ),
        JobState::Running => matches!(
            to,
            JobState::Succeeded | JobState::Failed | JobState::CancelRequested
                | JobState::Interrupted
        ),
        JobState::CancelRequested => matches!(
            to,
            JobState::Cancelled | JobState::Succeeded | JobState::Failed | JobState::Interrupted
        ),
        _ => false,
    };
    let again: bool = recurring && matches!(to, JobState::Waiting) && matches!(
        from,
        JobState::Starting | JobState::Running | JobState::Succeeded | JobState::Failed
            | JobState::Interrupted | JobState::Missed
    );
    transition(from, to, actor, reason, once || again)
}

/// Checks a change of a run's state.
pub fn run_transition(
    from: RunState,
    to: RunState,
    actor: TransitionActor,
    reason: &str,
) -> (r: Result<Transition<RunState>, TransitionError>)
    ensures
        transition_outcome(from, to, actor, reason@, run_legal(from, to), r),
{
    let legal: bool = match from {
        RunState::Starting => matches!(
            to,
            RunState::Running | RunState::Failed | RunState::CancelRequested | RunState::Interrupted
        ),
        RunState::Running => matches!(
            to,
            RunState::Succeeded | RunState::Failed | RunState::CancelRequested
                | RunState::Interrupted
        ),
        RunState::CancelRequested => matches!(
            to,
            RunState::Cancelled | RunState::Succeeded | RunState::Failed | RunState::Interrupted
        ),
        _ => false,
    };
    transition(from, to, actor, reason, legal)
}

/// How a command ended.
#[derive(Clone, Copy, Debug, PartialEq, Eq, Structural)]
pub enum Completion {
    /// It exited with this status.
    Exit(i32),
    /// A signal ended it.
    Signal(i32),
    /// It could not be started.
    Failure,
    /// Its end was not seen.
    Interrupted,
    /// It was stopped because its cancellation was requested.
    TerminatedByCancellation,
}

/// The state that a completion leads to.
pub open spec fn completion_state(completion: Completion) -> RunState {
    match completion {
        Completion::Exit(code) => if code == 0 {
            RunState::Succeeded
        } else {
            RunState::Failed
        },
        Completion::Signal(_) => RunState::Failed,
        Completion::Failure => RunState::Failed,
        Completion::Interrupted => RunState::Interrupted,
        Completion::TerminatedByCancellation => RunState::Cancelled,
    }
}

/// The state of a run after its command ended. A natural end wins over a requested cancellation,
/// and an end by cancellation counts only once the request was recorded.
pub fn complete_run(current: RunState, completion: Completion) -> (r: Result<
    RunState,
    TransitionError,
>)
    ensures
        r == if completion is TerminatedByCancellation && current != RunState::CancelRequested {
            Err::<RunState, TransitionError>(TransitionError::CancellationNotCommitted)
        } else if run_legal(current, completion_state(completion)) {
            Ok(completion_state(completion))
        } else {
            Err(TransitionError::Illegal)
        },
{
    let target: RunState = match completion {
        Completion::Exit(code) => {
            if code == 0 {
                RunState::Succeeded
            } else {
                RunState::Failed
            }
        },
        Completion::Signal(_) => RunState::Failed,
        Completion::Failure => RunState::Failed,
        Completion::Interrupted => RunState::Interrupted,
        Completion::TerminatedByCancellation => {
            if current != RunState::CancelRequested {
                return Err(TransitionError::CancellationNotCommitted);
            }
            RunState::Cancelled
        },
    };
    proof {
        reveal_strlit("command completion");
        assert("command completion"@.len() == 18);
        assert(!"command completion"@.contains('\0'));
    }
    match run_transition(current, target, TransitionActor::Monitor, "command completion") {
        Ok(done) => Ok(done.to()),
        Err(error) => Err(error),
    }
}

} // verus!
