//! Which states jobs and runs go through.
use crate::domain::execution::ExecutionSpec;
use crate::domain::job::{Job, JobError, JobSnapshot};
use crate::domain::primitives::{Description, Name, UtcTimestamp};
use crate::domain::run::{
    outcome_state, ProcessIdentitySnapshot, Run, RunError, RunOutcome, RunSnapshot,
};
use crate::domain::schedule::{MissedPolicy, RuntimeTier, Schedule, ScheduleModel};
use crate::domain::state::{JobState, RunState};
use crate::domain::transition::{
    complete_run, job_transition, run_transition, Completion, Transition, TransitionActor,
    TransitionError,
};
use crate::path_text::stays_below;
use vstd::prelude::*;

verus! {

// ---------------------------------------------------------------------------------------------
// Jobs
// ---------------------------------------------------------------------------------------------
/// The states from which a job may enter a state. A job is picked up, started, runs and ends; before its
/// command ran it can be missed, from there on it can fail or be interrupted; it is cancelled only after
/// that was asked for. A recurring job goes back to waiting from wherever an occurrence started, ended
/// or was missed.
pub open spec fn enters(from: JobState, to: JobState, recurring: bool) -> bool {
    match to {
        JobState::Scheduled => false,
        JobState::Waiting => from == JobState::Scheduled || (recurring && (from
            == JobState::Starting || from == JobState::Running || from == JobState::Succeeded
            || from == JobState::Failed || from == JobState::Interrupted || from
            == JobState::Missed)),
        JobState::Starting => from == JobState::Waiting,
        JobState::Running => from == JobState::Starting,
        JobState::CancelRequested => from == JobState::Scheduled || from == JobState::Waiting
            || from == JobState::Starting || from == JobState::Running,
        JobState::Succeeded => from == JobState::Running || from == JobState::CancelRequested,
        JobState::Failed | JobState::Interrupted => from == JobState::Starting || from
            == JobState::Running || from == JobState::CancelRequested,
        JobState::Cancelled => from == JobState::CancelRequested,
        JobState::Missed => from == JobState::Scheduled || from == JobState::Waiting,
    }
}

/// A reason that may be recorded.
pub open spec fn is_reason(reason: Seq<char>) -> bool {
    reason.len() > 0 && !reason.contains('\0')
}

/// A change of a job's state is allowed exactly where the state may be entered and a reason is given, and
/// it is recorded as it was asked for.
pub proof fn lemma_job_moves_as_allowed(
    from: JobState,
    to: JobState,
    recurring: bool,
    actor: TransitionActor,
    reason: &str,
    r: Result<Transition<JobState>, TransitionError>,
)
    requires
        call_ensures(job_transition, (from, to, recurring, actor, reason), r),
    ensures
        match r {
            Ok(done) => {
                &&& enters(from, to, recurring) && is_reason(reason@)
                &&& done.spec_from() == from && done.spec_to() == to
                &&& done.spec_actor() == actor && done.spec_reason() == reason@
            },
            Err(error) => if enters(from, to, recurring) {
                error == TransitionError::InvalidReason && !is_reason(reason@)
            } else {
                error == TransitionError::Illegal
            },
        },
{
}

/// A change of a job keeps everything but its state, its revision and the time of the change; one that is
/// refused keeps everything.
pub proof fn lemma_job_change_is_recorded(
    before: Job,
    after: Job,
    to: JobState,
    recurring: bool,
    actor: TransitionActor,
    reason: &str,
    now: UtcTimestamp,
    r: Result<Transition<JobState>, JobError>,
)
    requires
        exists|at: &mut Job|
            {
                &&& #[trigger] call_ensures(
                    Job::transition,
                    (at, to, recurring, actor, reason, now),
                    r,
                )
                &&& *at == before
                &&& *final(at) == after
            },
    ensures
        match r {
            Ok(done) => {
                &&& enters(before@.state, to, recurring) && is_reason(reason@)
                &&& now@ >= before@.updated_at_utc@
                &&& done.spec_from() == before@.state && done.spec_to() == to
                &&& done.spec_actor() == actor && done.spec_reason() == reason@
                &&& after@.state == to
                &&& after@.revision@ == before@.revision@ + 1
                &&& after@.updated_at_utc == now
                &&& after@.id == before@.id
                &&& after@.name == before@.name && after@.description == before@.description
                &&& after@.created_at_utc == before@.created_at_utc
                &&& after@.runtime_tier == before@.runtime_tier
                &&& after@.schedule == before@.schedule
                &&& after@.missed_policy == before@.missed_policy
                &&& after@.execution == before@.execution
                &&& after@.next_due_utc == before@.next_due_utc
                &&& after@.timezone_database_version == before@.timezone_database_version
                &&& after@.owner_uid == before@.owner_uid
            },
            Err(error) => {
                &&& after@ == before@
                &&& match error {
                    JobError::TimeMovedBackward => now@ < before@.updated_at_utc@,
                    JobError::Transition(TransitionError::Illegal) => !enters(
                        before@.state,
                        to,
                        recurring,
                    ),
                    JobError::Transition(TransitionError::InvalidReason) => !is_reason(reason@),
                    JobError::Primitive(_) => before@.revision@ == u64::MAX,
                    _ => false,
                }
            },
        },
{
}

/// A job that can be stored reads back as it was; one whose times or zone database contradict each other
/// does not.
pub proof fn lemma_job_snapshot_reads_back(
    snapshot: JobSnapshot,
    r: Result<Job, JobError>,
)
    requires
        call_ensures(Job::rehydrate, (snapshot,), r),
    ensures
        match r {
            Ok(job) => job@ == snapshot@,
            Err(error) => error == JobError::CorruptSnapshot,
        },
        r is Ok <==> snapshot.created_at_utc@ <= snapshot.updated_at_utc@ && is_reason(
            snapshot.timezone_database_version@,
        ),
{
}

// ---------------------------------------------------------------------------------------------
// Runs
// ---------------------------------------------------------------------------------------------
/// The states from which a run may enter a state.
pub open spec fn run_enters(from: RunState, to: RunState) -> bool {
    match to {
        RunState::Starting => false,
        RunState::Running => from == RunState::Starting,
        RunState::CancelRequested => from == RunState::Starting || from == RunState::Running,
        RunState::Succeeded => from == RunState::Running || from == RunState::CancelRequested,
        RunState::Failed | RunState::Interrupted => from == RunState::Starting || from
            == RunState::Running || from == RunState::CancelRequested,
        RunState::Cancelled => from == RunState::CancelRequested,
    }
}

/// A change of a run's state is allowed exactly where the state may be entered and a reason is given.
pub proof fn lemma_run_moves_as_allowed(
    from: RunState,
    to: RunState,
    actor: TransitionActor,
    reason: &str,
    r: Result<Transition<RunState>, TransitionError>,
)
    requires
        call_ensures(run_transition, (from, to, actor, reason), r),
    ensures
        match r {
            Ok(done) => {
                &&& run_enters(from, to) && is_reason(reason@)
                &&& done.spec_from() == from && done.spec_to() == to
                &&& done.spec_actor() == actor && done.spec_reason() == reason@
            },
            Err(error) => if run_enters(from, to) {
                error == TransitionError::InvalidReason && !is_reason(reason@)
            } else {
                error == TransitionError::Illegal
            },
        },
{
}

/// A command that exits with zero succeeded, and one that ends otherwise failed, also where its
/// cancellation had been asked for meanwhile; it counts as cancelled only where it was stopped for that.
/// What has ended does not end again.
pub proof fn lemma_natural_end_wins(
    current: RunState,
    completion: Completion,
    r: Result<RunState, TransitionError>,
)
    requires
        call_ensures(complete_run, (current, completion), r),
    ensures
        current == RunState::Running || current == RunState::CancelRequested ==> match completion {
            Completion::Exit(code) => r == Ok::<RunState, TransitionError>(
                if code == 0 {
                    RunState::Succeeded
                } else {
                    RunState::Failed
                },
            ),
            Completion::Signal(_) | Completion::Failure => r == Ok::<RunState, TransitionError>(
                RunState::Failed,
            ),
            Completion::Interrupted => r == Ok::<RunState, TransitionError>(RunState::Interrupted),
            Completion::TerminatedByCancellation => if current == RunState::CancelRequested {
                r == Ok::<RunState, TransitionError>(RunState::Cancelled)
            } else {
                r == Err::<RunState, TransitionError>(TransitionError::CancellationNotCommitted)
            },
        },
        current == RunState::Starting ==> match completion {
            Completion::Exit(code) => code == 0 ==> r == Err::<RunState, TransitionError>(
                TransitionError::Illegal,
            ),
            Completion::Failure => r == Ok::<RunState, TransitionError>(RunState::Failed),
            Completion::Interrupted => r == Ok::<RunState, TransitionError>(RunState::Interrupted),
            Completion::TerminatedByCancellation => r is Err,
            Completion::Signal(_) => r == Ok::<RunState, TransitionError>(RunState::Failed),
        },
        current == RunState::Succeeded || current == RunState::Failed || current
            == RunState::Cancelled || current == RunState::Interrupted ==> r is Err,
{
}

/// The state of an ended run is that of its outcome.
pub proof fn lemma_outcome_decides_the_state(outcome: &RunOutcome, r: RunState)
    requires
        call_ensures(outcome_state, (outcome,), r),
    ensures
        match *outcome {
            RunOutcome::Exit(code) => if code == 0 {
                r == RunState::Succeeded
            } else {
                r == RunState::Failed
            },
            RunOutcome::Signal(_) | RunOutcome::Failure(_) => r == RunState::Failed,
            RunOutcome::Interrupted(_) => r == RunState::Interrupted,
            RunOutcome::Cancelled(_) => r == RunState::Cancelled,
        },
{
}

/// The run has ended.
pub open spec fn ended(state: RunState) -> bool {
    ||| state == RunState::Succeeded
    ||| state == RunState::Failed
    ||| state == RunState::Cancelled
    ||| state == RunState::Interrupted
}

/// A run ends once, no earlier than it was made, with the outcome that was seen; it counts as cancelled
/// only where that was asked for. Nothing else of it changes.
pub proof fn lemma_run_ends_once(
    run: Run,
    finished: UtcTimestamp,
    outcome: RunOutcome,
    r: Result<Run, RunError>,
)
    requires
        call_ensures(Run::with_outcome, (run, finished, outcome), r),
    ensures
        r is Ok <==> run@.outcome is None && !ended(run@.state) && finished@ >= run@.created_at_utc@
            && (outcome is Cancelled ==> run@.state == RunState::CancelRequested),
        r matches Ok(done) ==> {
            &&& done@.outcome == Some(outcome@)
            &&& done@.finished_at_utc == Some(finished)
            &&& ended(done@.state)
            &&& outcome is Cancelled <==> done@.state == RunState::Cancelled
            &&& outcome is Interrupted <==> done@.state == RunState::Interrupted
            &&& (outcome matches RunOutcome::Exit(code) && code == 0) <==> done@.state
                == RunState::Succeeded
            &&& done@.id == run@.id && done@.job_id == run@.job_id
            &&& done@.sequence == run@.sequence
            &&& done@.scheduled_for_utc == run@.scheduled_for_utc
            &&& done@.created_at_utc == run@.created_at_utc
            &&& done@.started_at_utc == run@.started_at_utc
            &&& done@.claim_token == run@.claim_token
            &&& done@.monitor_identity == run@.monitor_identity
            &&& done@.command_identity == run@.command_identity
            &&& done@.stdout_path == run@.stdout_path && done@.stderr_path == run@.stderr_path
        },
        r matches Err(error) ==> match error {
            RunError::OutcomeAlreadyRecorded => run@.outcome is Some,
            RunError::FinishBeforeCreation => finished@ < run@.created_at_utc@,
            RunError::InvalidState => ended(run@.state) || outcome is Cancelled,
            _ => false,
        },
{
}

/// The cancellation of a run may be asked for until it has ended, also more than once; only its state
/// changes.
pub proof fn lemma_cancellation_is_asked_for_until_the_end(run: Run, r: Result<Run, RunError>)
    requires
        call_ensures(Run::request_cancellation, (run,), r),
    ensures
        r is Ok <==> !ended(run@.state),
        r matches Ok(asked) ==> {
            &&& asked@.state == RunState::CancelRequested
            &&& asked@.id == run@.id && asked@.job_id == run@.job_id
            &&& asked@.claim_token == run@.claim_token
            &&& asked@.command_identity == run@.command_identity
            &&& asked@.monitor_identity == run@.monitor_identity
            &&& asked@.started_at_utc == run@.started_at_utc
            &&& asked@.outcome == run@.outcome
        },
        r matches Err(error) ==> error == RunError::InvalidState,
{
}

/// The identity names a process beyond doubt.
pub open spec fn names_a_process(identity: ProcessIdentitySnapshot) -> bool {
    &&& is_reason(identity.boot_identity@)
    &&& identity.pid > 0
    &&& identity.start_token > 0
    &&& identity.process_group_id > 0
}

/// A run is started once, from its first state and no earlier than it was made, with processes that can
/// be told from others and logs below the state directory.
pub proof fn lemma_run_starts_once(
    run: Run,
    started: UtcTimestamp,
    monitor: ProcessIdentitySnapshot,
    command: ProcessIdentitySnapshot,
    stdout_path: String,
    stderr_path: String,
    r: Result<Run, RunError>,
)
    requires
        call_ensures(
            Run::mark_running,
            (run, started, monitor, command, stdout_path, stderr_path),
            r,
        ),
    ensures
        r is Ok <==> run@.state == RunState::Starting && started@ >= run@.created_at_utc@
            && names_a_process(monitor) && names_a_process(command) && stays_below(stdout_path@)
            && stays_below(stderr_path@),
        r matches Ok(under_way) ==> {
            &&& under_way@.state == RunState::Running
            &&& under_way@.started_at_utc == Some(started)
            &&& under_way@.monitor_identity == Some(monitor@)
            &&& under_way@.command_identity == Some(command@)
            &&& under_way@.stdout_path == Some(stdout_path@)
            &&& under_way@.stderr_path == Some(stderr_path@)
            &&& under_way@.id == run@.id && under_way@.job_id == run@.job_id
            &&& under_way@.sequence == run@.sequence
            &&& under_way@.scheduled_for_utc == run@.scheduled_for_utc
            &&& under_way@.created_at_utc == run@.created_at_utc
            &&& under_way@.claim_token == run@.claim_token
            &&& under_way@.outcome == run@.outcome
            &&& under_way@.finished_at_utc == run@.finished_at_utc
        },
        r matches Err(error) ==> match error {
            RunError::InvalidState => run@.state != RunState::Starting,
            RunError::StartBeforeCreation => started@ < run@.created_at_utc@,
            RunError::InvalidIdentity => !names_a_process(monitor) || !names_a_process(command),
            RunError::InvalidLogPath => !stays_below(stdout_path@) || !stays_below(stderr_path@),
            _ => false,
        },
{
}

/// A stored run reads back as it was unless its fields contradict each other: its times are in order, it
/// has an outcome and an end exactly where it has ended, and the outcome is that of its state.
pub proof fn lemma_run_snapshot_reads_back(snapshot: RunSnapshot, r: Result<Run, RunError>)
    requires
        call_ensures(Run::rehydrate, (snapshot,), r),
    ensures
        r matches Ok(run) ==> {
            &&& run@ == snapshot@
            &&& snapshot.started_at_utc matches Some(started) ==> started@
                >= snapshot.created_at_utc@
            &&& snapshot.finished_at_utc matches Some(finished) ==> finished@
                >= snapshot.created_at_utc@ && (snapshot.started_at_utc matches Some(started)
                ==> finished@ >= started@)
            &&& ended(snapshot.state) <==> snapshot.outcome is Some
            &&& ended(snapshot.state) <==> snapshot.finished_at_utc is Some
            &&& snapshot.outcome matches Some(outcome) ==> match outcome {
                RunOutcome::Exit(code) => snapshot.state == if code == 0 {
                    RunState::Succeeded
                } else {
                    RunState::Failed
                },
                RunOutcome::Signal(_) | RunOutcome::Failure(_) => snapshot.state
                    == RunState::Failed,
                RunOutcome::Interrupted(_) => snapshot.state == RunState::Interrupted,
                RunOutcome::Cancelled(_) => snapshot.state == RunState::Cancelled,
            }
            &&& snapshot.monitor_identity matches Some(identity) ==> names_a_process(identity)
            &&& snapshot.command_identity matches Some(identity) ==> names_a_process(identity)
        },
        snapshot.state == RunState::Starting && snapshot.started_at_utc is None
            && snapshot.finished_at_utc is None && snapshot.outcome is None
            && snapshot.monitor_identity is None && snapshot.command_identity is None
            && snapshot.stdout_path is None && snapshot.stderr_path is None ==> r is Ok,
{
}

/// A new job is scheduled at its first revision for when its schedule is first due, which has to be in the
/// future; it has no name and no note yet.
pub proof fn lemma_new_job_is_scheduled(
    now: UtcTimestamp,
    schedule: Schedule,
    policy: MissedPolicy,
    tier: RuntimeTier,
    execution: ExecutionSpec,
    owner: u32,
    r: Result<Job, JobError>,
)
    requires
        call_ensures(Job::new, (now, schedule, policy, tier, execution, owner), r),
    ensures
        r is Ok <==> now@ < match schedule@ {
            ScheduleModel::OneShotRelative { persisted_due_utc, .. } => persisted_due_utc@,
            ScheduleModel::OneShotAbsolute { resolved_due_utc, .. } => resolved_due_utc@,
            ScheduleModel::RecurringInterval { persisted_anchor_utc, .. } => persisted_anchor_utc@,
        },
        r matches Ok(job) ==> {
            &&& job@.state == JobState::Scheduled && job@.revision@ == 1
            &&& job@.created_at_utc == now && job@.updated_at_utc == now
            &&& job@.schedule == schedule@ && job@.execution == execution@
            &&& job@.missed_policy == policy && job@.runtime_tier == tier && job@.owner_uid == owner
            &&& job@.next_due_utc@ > now@
            &&& job@.name is None && job@.description is None
        },
{
}

/// Naming a job changes nothing else of it.
pub proof fn lemma_naming_changes_nothing_else(
    before: Job,
    after: Job,
    name: Option<Name>,
    note: Option<Description>,
)
    requires
        exists|at: &mut Job|
            {
                &&& #[trigger] call_ensures(Job::set_metadata, (at, name, note), ())
                &&& *at == before
                &&& *final(at) == after
            },
    ensures
        name matches Some(text) ==> after@.name == Some(text@),
        name is None ==> after@.name is None,
        note matches Some(text) ==> after@.description == Some(text@),
        note is None ==> after@.description is None,
        after@.id == before@.id && after@.revision == before@.revision,
        after@.state == before@.state && after@.schedule == before@.schedule,
        after@.execution == before@.execution && after@.next_due_utc == before@.next_due_utc,
        after@.missed_policy == before@.missed_policy,
        after@.runtime_tier == before@.runtime_tier && after@.owner_uid == before@.owner_uid,
{
}

} // verus!
