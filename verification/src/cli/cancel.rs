//! Cancelling a job and its run.
use vstd::prelude::*;

use crate::application::cancel::{
    cancel_claimed_run, cancel_run_message, cancelled_as, CancelAnswers, CancelRunError,
    CancelRunResult, CancellationStoreError, ProcessGroupCanceller,
};
use crate::application::clock::{clock_error_message, ClockError, WallClock};
use crate::application::list::{
    job_named, resolve_job, valid_prefix, ManagementError, ManagementStore, ManagementStoreError,
};
use crate::domain::duration::DurationSeconds;
use crate::domain::id::{id_text, JobId, RunId};
use crate::domain::job::Job;
use crate::domain::primitives::UtcTimestamp;
use crate::domain::run::{ClaimToken, OutcomeModel, Run, RunOutcome};
use crate::domain::state::{JobState, RunState};
use crate::domain::transition::TransitionActor;
use crate::infrastructure::sqlite::database::{
    store_message, DatabaseFailure, StoreError, StoreFault,
};
use crate::infrastructure::sqlite::job_store::{
    job_changed, job_loaded, lemma_changed_job_was_allowed, Change, JobStore,
};
use crate::infrastructure::sqlite::management::active_run_found;
use crate::infrastructure::sqlite::run_row::RunRow;
use crate::infrastructure::sqlite::run_store::{
    answered_cancellation, cancel_outcome, end_recorded, loaded_run, RunAnswers,
};
use crate::infrastructure::sqlite::statements::ran_find_run;
use crate::infrastructure::sqlite::tables::Database;

verus! {

/// How often a cancellation is tried while others change the job.
pub const CANCEL_ATTEMPTS: usize = 8;

// ---------------------------------------------------------------------------------------------
// Decisions
// ---------------------------------------------------------------------------------------------
/// A failure of the store as a management error.
pub fn management_store_error(detail: String) -> (r: ManagementError)
    ensures
        r == ManagementError::Store(ManagementStoreError(detail)),
{
    ManagementError::Store(ManagementStoreError(detail))
}

/// What a request to cancel a job in some state calls for.
#[derive(Clone, Copy, Debug, PartialEq, Eq, Structural)]
pub enum CancelNeed {
    /// Nothing: the job was cancelled, or that was requested.
    Satisfied,
    /// Nothing: the job ended otherwise.
    TooLate,
    /// The request is to be recorded.
    Request,
}

/// What a request to cancel a job in some state calls for.
pub open spec fn need_of(state: JobState) -> CancelNeed {
    if state == JobState::Cancelled || state == JobState::CancelRequested {
        CancelNeed::Satisfied
    } else if state.terminal() {
        CancelNeed::TooLate
    } else {
        CancelNeed::Request
    }
}

/// What a request to cancel a job in some state calls for.
pub fn cancel_need(state: JobState) -> (r: CancelNeed)
    ensures
        r == need_of(state),
{
    if matches!(state, JobState::Cancelled | JobState::CancelRequested) {
        CancelNeed::Satisfied
    } else if state.is_terminal() {
        CancelNeed::TooLate
    } else {
        CancelNeed::Request
    }
}

/// Whether a failed change is due to someone else who changed the job in between.
pub fn lost_race(error: &StoreError) -> (r: bool)
    ensures
        r == is_lost_race(error@),
{
    match error {
        StoreError::Conflict => true,
        StoreError::Domain(_) => true,
        _ => false,
    }
}

/// The state of a job whose run ended so while it was being cancelled.
pub open spec fn target_of(run_state: RunState) -> Option<JobState> {
    match run_state {
        RunState::Succeeded => Some(JobState::Succeeded),
        RunState::Cancelled => Some(JobState::Cancelled),
        RunState::Failed => Some(JobState::Failed),
        RunState::Interrupted => Some(JobState::Interrupted),
        _ => None,
    }
}

/// The state of a job whose run ended so while it was being cancelled.
pub fn cancellation_target(run_state: RunState) -> (r: Result<JobState, ManagementError>)
    ensures
        r == match target_of(run_state) {
            Some(state) => Ok::<JobState, ManagementError>(state),
            None => Err(
                ManagementError::StateConflict("run remained nonterminal after cancellation"),
            ),
        },
{
    match run_state {
        RunState::Succeeded => Ok(JobState::Succeeded),
        RunState::Cancelled => Ok(JobState::Cancelled),
        RunState::Failed => Ok(JobState::Failed),
        RunState::Interrupted => Ok(JobState::Interrupted),
        _ => Err(ManagementError::StateConflict("run remained nonterminal after cancellation")),
    }
}

/// A cancelled job ends as its run did, whatever that was: a run that finished by itself is not
/// said to be cancelled.
pub proof fn lemma_target_is_legal(run_state: RunState)
    ensures
        target_of(run_state) is Some == run_state.terminal(),
        target_of(run_state) matches Some(state) ==> {
            &&& state.terminal()
            &&& (state == JobState::Cancelled) == (run_state == RunState::Cancelled)
            &&& crate::domain::transition::job_legal(JobState::CancelRequested, state, false)
        },
{
}

/// What to do about a run that was asked to stop.
pub enum StopStep {
    /// It ended.
    Ended(Run),
    /// It is looked at again after a pause.
    Wait,
}

/// What to do about a run that was asked to stop, as it was found now.
pub fn stop_step(found: Option<Run>, deadline_over: bool) -> (r: Result<StopStep, ManagementError>)
    ensures
        match found {
            None => r == Err::<StopStep, ManagementError>(
                ManagementError::StateConflict("active run disappeared"),
            ),
            Some(run) => if run@.state.terminal() {
                r == Ok::<StopStep, ManagementError>(StopStep::Ended(run))
            } else if deadline_over {
                r == Err::<StopStep, ManagementError>(
                    ManagementError::StateConflict(
                        "run did not stop before the cancellation deadline",
                    ),
                )
            } else {
                r == Ok::<StopStep, ManagementError>(StopStep::Wait)
            },
        },
{
    match found {
        None => Err(ManagementError::StateConflict("active run disappeared")),
        Some(run) => {
            if run.state().is_terminal() {
                Ok(StopStep::Ended(run))
            } else if deadline_over {
                Err(
                    ManagementError::StateConflict(
                        "run did not stop before the cancellation deadline",
                    ),
                )
            } else {
                Ok(StopStep::Wait)
            }
        },
    }
}

// ---------------------------------------------------------------------------------------------
// Cancellation
// ---------------------------------------------------------------------------------------------
/// The clock was asked, with this answer.
pub open spec fn time_told<Clock: WallClock>(
    clock: Clock,
    told: Result<UtcTimestamp, ClockError>,
) -> bool {
    call_ensures(Clock::now_utc, (&clock,), told)
}

/// The result is a failure of the store with the detail.
pub open spec fn store_failed<T>(r: Result<T, ManagementError>, detail: Seq<char>) -> bool {
    r matches Err(ManagementError::Store(inner)) && inner.0@ == detail
}

/// The result is what asking for the time gives.
pub open spec fn now_read<Clock: WallClock>(
    clock: Clock,
    r: Result<UtcTimestamp, ManagementError>,
) -> bool {
    exists|told: Result<UtcTimestamp, ClockError>|
        {
            &&& #[trigger] time_told(clock, told)
            &&& match told {
                Ok(now) => r == Ok::<UtcTimestamp, ManagementError>(now),
                Err(error) => store_failed(r, clock_error_message(error)),
            }
        }
}

/// The result is what asking for a job again gives.
pub open spec fn job_reloaded<D: Database>(
    store: JobStore<D>,
    id: JobId,
    r: Result<Job, ManagementError>,
) -> bool {
    exists|loaded: Result<Option<Job>, StoreError>|
        {
            &&& #[trigger] job_loaded(store, id, loaded)
            &&& match loaded {
                Ok(Some(job)) => r == Ok::<Job, ManagementError>(job),
                Ok(None) => r == Err::<Job, ManagementError>(ManagementError::NotFound),
                Err(error) => store_failed(r, store_message(error@)),
            }
        }
}

/// A change of a job at its revision that the user asked for.
pub open spec fn user_change(job: Job, to: JobState, reason: Seq<char>, now: UtcTimestamp) -> Change {
    Change {
        id: job@.id,
        expected_revision: job@.revision,
        to,
        recurring: false,
        actor: TransitionActor::Cli,
        reason,
        now,
    }
}

/// The fault says that someone else changed the job in between.
pub open spec fn is_lost_race(fault: StoreFault) -> bool {
    fault == StoreFault::Conflict || fault is Domain
}

/// The store was asked for a run that is to be cancelled, with this answer.
pub open spec fn run_found<D: Database>(
    store: JobStore<D>,
    id: RunId,
    found: Result<Option<Run>, CancellationStoreError>,
) -> bool {
    exists|row: Result<Option<RunRow>, DatabaseFailure>, stored: Result<Option<Run>, StoreError>|
        {
            &&& #[trigger] ran_find_run(store.connection.state(), id_text(id@), row)
            &&& #[trigger] loaded_run(row, stored)
            &&& answered_cancellation(stored, found)
        }
}

/// The store was asked to record the request to cancel a run, where it was, with this answer.
pub open spec fn request_recorded<D: Database>(
    before: JobStore<D>,
    after: JobStore<D>,
    id: RunId,
    token: ClaimToken,
    answers: CancelAnswers,
) -> bool {
    if answers.commits(token) {
        exists|asked: RunAnswers, stored: Result<Run, StoreError>|
            {
                &&& #[trigger] cancel_outcome(
                    before.connection,
                    after.connection,
                    id,
                    token,
                    asked,
                    stored,
                )
                &&& answered_cancellation(stored, answers.committed)
            }
    } else {
        after == before
    }
}

/// The result is what ending a run gives whose command was never started.
pub open spec fn ended_before_start<D: Database, Clock: WallClock>(
    before: JobStore<D>,
    after: JobStore<D>,
    clock: Clock,
    run: Run,
    r: Result<(), ManagementError>,
) -> bool {
    exists|told: Result<UtcTimestamp, ManagementError>|
        {
            &&& #[trigger] now_read(clock, told)
            &&& match told {
                Err(error) => after == before && r == Err::<(), ManagementError>(error),
                Ok(now) => exists|token: ClaimToken, ended: Result<Run, StoreError>|
                    {
                        &&& token@ == run@.claim_token
                        &&& #[trigger] end_recorded(
                            before,
                            after,
                            run@.id,
                            token,
                            now,
                            OutcomeModel::Cancelled("cancelled before command start"@),
                            ended,
                        )
                        &&& match ended {
                            Ok(_) => r is Ok,
                            Err(error) => store_failed(r, store_message(error@)),
                        }
                    },
            }
        }
}

/// The result is what follows once a run was cancelled: one whose command was not started yet ends
/// here, as cancelled.
pub open spec fn stop_followed<D: Database, Clock: WallClock>(
    before: JobStore<D>,
    after: JobStore<D>,
    clock: Clock,
    cancelled: Result<CancelRunResult, CancelRunError>,
    r: Result<(), ManagementError>,
) -> bool {
    match cancelled {
        Ok(CancelRunResult::CommittedBeforeSpawn(recorded)) => ended_before_start(
            before,
            after,
            clock,
            recorded,
            r,
        ),
        Ok(_) => after == before && r is Ok,
        Err(error) => after == before && store_failed(r, cancel_run_message(error)),
    }
}

/// Cancels a claimed run of the store.
fn cancel_stored_run<D: Database, Canceller: ProcessGroupCanceller>(
    store: &mut JobStore<D>,
    canceller: &mut Canceller,
    id: RunId,
    token: ClaimToken,
) -> (r: Result<CancelRunResult, CancelRunError>)
    ensures
        exists|answers: CancelAnswers|
            {
                &&& r == #[trigger] cancelled_as(token, answers)
                &&& run_found(*old(store), id, answers.found)
                &&& request_recorded(*old(store), *final(store), id, token, answers)
                &&& if answers.signals(token) {
                    exists|by: &mut Canceller|
                        {
                            &&& #[trigger] call_ensures(
                                Canceller::cancel_group,
                                (by, &answers.committed->Ok_0),
                                answers.signalled,
                            )
                            &&& *by == *old(canceller)
                            &&& *final(by) == *final(canceller)
                        }
                } else {
                    *final(canceller) == *old(canceller)
                }
            },
{
    cancel_claimed_run(store, canceller, id, token)
}

/// Asks a run to stop: the request is recorded, and then its command is signalled once. A run whose
/// command was not started yet ends here, as cancelled.
pub fn ask_to_stop<D: Database, Clock: WallClock, Canceller: ProcessGroupCanceller>(
    store: &mut JobStore<D>,
    clock: &Clock,
    canceller: &mut Canceller,
    run: &Run,
) -> (r: Result<(), ManagementError>)
    ensures
        exists|token: ClaimToken, answers: CancelAnswers, requested: JobStore<D>|
            {
                &&& token@ == run@.claim_token
                &&& run_found(*old(store), run@.id, answers.found)
                &&& request_recorded(*old(store), requested, run@.id, token, answers)
                &&& #[trigger] stop_followed(
                    requested,
                    *final(store),
                    *clock,
                    cancelled_as(token, answers),
                    r,
                )
                &&& if answers.signals(token) {
                    exists|by: &mut Canceller|
                        {
                            &&& #[trigger] call_ensures(
                                Canceller::cancel_group,
                                (by, &answers.committed->Ok_0),
                                answers.signalled,
                            )
                            &&& *by == *old(canceller)
                            &&& *final(by) == *final(canceller)
                        }
                } else {
                    *final(canceller) == *old(canceller)
                }
            },
{
    let token: ClaimToken = run.claim_token();
    let cancelled: Result<CancelRunResult, CancelRunError> = cancel_stored_run(
        store,
        canceller,
        run.id(),
        token,
    );
    let ghost requested = *store;
    let ghost answer = cancelled;
    match cancelled {
        Ok(CancelRunResult::CommittedBeforeSpawn(recorded)) => {
            let told: Result<UtcTimestamp, ManagementError> = now_or_error(clock);
            assert(now_read(*clock, told));
            let now: UtcTimestamp = match told {
                Ok(now) => now,
                Err(error) => {
                    let r: Result<(), ManagementError> = Err(error);
                    assert(ended_before_start(requested, *store, *clock, recorded, r));
                    assert(stop_followed(requested, *store, *clock, answer, r));
                    return r;
                },
            };
            let outcome: RunOutcome = RunOutcome::Cancelled(
                "cancelled before command start".to_owned(),
            );
            let claim: ClaimToken = recorded.claim_token();
            let ended: Result<Run, StoreError> = store.record_run_terminal(
                recorded.id(),
                claim,
                now,
                outcome,
            );
            assert(end_recorded(
                requested,
                *store,
                recorded@.id,
                claim,
                now,
                OutcomeModel::Cancelled("cancelled before command start"@),
                ended,
            ));
            let r: Result<(), ManagementError> = match ended {
                Ok(_) => Ok(()),
                Err(error) => Err(management_store_error(error.to_string())),
            };
            assert(ended_before_start(requested, *store, *clock, recorded, r));
            assert(stop_followed(requested, *store, *clock, answer, r));
            r
        },
        Ok(_) => {
            let r: Result<(), ManagementError> = Ok(());
            assert(stop_followed(requested, *store, *clock, answer, r));
            r
        },
        Err(error) => {
            let r: Result<(), ManagementError> = Err(management_store_error(error.to_string()));
            assert(stop_followed(requested, *store, *clock, answer, r));
            r
        },
    }
}

/// Stops the run of a job and waits for its end.
pub trait RunStopper<D> {
    fn cancel_active_run(&self, store: &mut JobStore<D>, run: &Run, grace: DurationSeconds) -> Result<
        Run,
        ManagementError,
    >;
}

/// The time, or the failure of the clock.
pub fn now_or_error<Clock: WallClock>(clock: &Clock) -> (r: Result<UtcTimestamp, ManagementError>)
    ensures
        now_read(*clock, r),
{
    let told: Result<UtcTimestamp, ClockError> = clock.now_utc();
    assert(time_told(*clock, told));
    match told {
        Ok(now) => Ok(now),
        Err(error) => Err(management_store_error(error.to_string())),
    }
}

fn reload<D: Database>(store: &JobStore<D>, id: JobId) -> (r: Result<Job, ManagementError>)
    ensures
        job_reloaded(*store, id, r),
{
    let loaded: Result<Option<Job>, StoreError> = store.load(id);
    assert(job_loaded(*store, id, loaded));
    match loaded {
        Ok(Some(job)) => Ok(job),
        Ok(None) => Err(ManagementError::NotFound),
        Err(error) => Err(management_store_error(error.to_string())),
    }
}

/// What came of recording a request to cancel a job.
pub enum Requested {
    /// The job is cancelled, or someone else requested that.
    Satisfied(Job),
    /// The request is recorded now.
    Pending { job: Job, now: UtcTimestamp },
}

/// What came back of one attempt to record a request to cancel a job, and the store after it.
pub struct CancelAttempt<D> {
    pub told: Result<UtcTimestamp, ManagementError>,
    pub changed: Result<Job, StoreError>,
    pub store: JobStore<D>,
    pub fresh: Result<Job, ManagementError>,
}

/// One attempt was made: the time was asked for, the request recorded, and the job asked for again
/// where someone else had changed it.
pub open spec fn attempt_made<D: Database, Clock: WallClock>(
    before: JobStore<D>,
    clock: Clock,
    job: Job,
    attempt: CancelAttempt<D>,
) -> bool {
    &&& now_read(clock, attempt.told)
    &&& match attempt.told {
        Err(_) => attempt.store == before,
        Ok(now) => {
            &&& job_changed(
                before,
                attempt.store,
                user_change(job, JobState::CancelRequested, "cancel requested"@, now),
                attempt.changed,
            )
            &&& attempt.changed matches Err(error) ==> is_lost_race(error@) ==> job_reloaded(
                attempt.store,
                job@.id,
                attempt.fresh,
            )
        },
    }
}

/// The result is what recording a request to cancel a job gives, with so many attempts left.
pub open spec fn requested_from<D: Database, Clock: WallClock>(
    before: JobStore<D>,
    after: JobStore<D>,
    clock: Clock,
    job: Job,
    attempts: nat,
    r: Result<Requested, ManagementError>,
) -> bool
    decreases attempts,
{
    let too_late = Err::<Requested, ManagementError>(
        ManagementError::StateConflict("job changed state during cancellation"),
    );
    if attempts == 0 {
        after == before && r == too_late
    } else {
        match need_of(job@.state) {
            CancelNeed::Satisfied => after == before && r == Ok::<Requested, ManagementError>(
                Requested::Satisfied(job),
            ),
            CancelNeed::TooLate => after == before && r == too_late,
            CancelNeed::Request => exists|attempt: CancelAttempt<D>|
                {
                    &&& #[trigger] attempt_made(before, clock, job, attempt)
                    &&& match attempt.told {
                        Err(error) => after == attempt.store && r == Err::<
                            Requested,
                            ManagementError,
                        >(error),
                        Ok(now) => match attempt.changed {
                            Ok(pending) => after == attempt.store && r == Ok::<
                                Requested,
                                ManagementError,
                            >(Requested::Pending { job: pending, now }),
                            Err(error) => if !is_lost_race(error@) {
                                after == attempt.store && store_failed(r, store_message(error@))
                            } else {
                                match attempt.fresh {
                                    Err(failure) => after == attempt.store && r == Err::<
                                        Requested,
                                        ManagementError,
                                    >(failure),
                                    Ok(fresh) => requested_from(
                                        attempt.store,
                                        after,
                                        clock,
                                        fresh,
                                        (attempts - 1) as nat,
                                        r,
                                    ),
                                }
                            },
                        },
                    }
                },
        }
    }
}

/// Records a request to cancel a job, and tries again while others change it.
pub fn request_cancellation<D: Database, Clock: WallClock>(
    store: &mut JobStore<D>,
    clock: &Clock,
    job: Job,
) -> (r: Result<Requested, ManagementError>)
    ensures
        requested_from(*old(store), *final(store), *clock, job, CANCEL_ATTEMPTS as nat, r),
        match r {
            Ok(Requested::Satisfied(job)) => need_of(job@.state) == CancelNeed::Satisfied,
            Ok(Requested::Pending { job, now }) => job@.state == JobState::CancelRequested
                && job@.updated_at_utc == now,
            Err(_) => true,
        },
{
    let ghost start = *store;
    let mut current: Job = job;
    let mut attempt: usize = 0;
    while attempt < CANCEL_ATTEMPTS
        invariant
            attempt <= CANCEL_ATTEMPTS,
            start == *old(store),
            forall|after: JobStore<D>, r: Result<Requested, ManagementError>|
                requested_from(
                    *store,
                    after,
                    *clock,
                    current,
                    (CANCEL_ATTEMPTS - attempt) as nat,
                    r,
                ) ==> #[trigger] requested_from(
                    start,
                    after,
                    *clock,
                    job,
                    CANCEL_ATTEMPTS as nat,
                    r,
                ),
        decreases CANCEL_ATTEMPTS - attempt,
    {
        let ghost left = (CANCEL_ATTEMPTS - attempt) as nat;
        let ghost before = *store;
        let ghost mut made: CancelAttempt<D> = arbitrary();
        match cancel_need(current.state()) {
            CancelNeed::Satisfied => {
                let r: Result<Requested, ManagementError> = Ok(Requested::Satisfied(current));
                assert(requested_from(before, *store, *clock, current, left, r));
                return r;
            },
            CancelNeed::TooLate => {
                let r: Result<Requested, ManagementError> = Err(
                    ManagementError::StateConflict("job changed state during cancellation"),
                );
                assert(requested_from(before, *store, *clock, current, left, r));
                return r;
            },
            CancelNeed::Request => {},
        }
        let told: Result<UtcTimestamp, ManagementError> = now_or_error(clock);
        proof {
            made.told = told;
            made.store = *store;
        }
        let now: UtcTimestamp = match told {
            Ok(now) => now,
            Err(error) => {
                let r: Result<Requested, ManagementError> = Err(error);
                assert(attempt_made(before, *clock, current, made));
                assert(requested_from(before, *store, *clock, current, left, r));
                return r;
            },
        };
        let changed: Result<Job, StoreError> = store.transition_job(
            current.id(),
            current.revision(),
            JobState::CancelRequested,
            false,
            TransitionActor::Cli,
            "cancel requested",
            now,
        );
        let ghost change = user_change(
            current,
            JobState::CancelRequested,
            "cancel requested"@,
            now,
        );
        proof {
            made.changed = changed;
            made.store = *store;
            assert(job_changed(before, *store, change, changed));
            lemma_changed_job_was_allowed(before, *store, change, changed);
        }
        match changed {
            Ok(pending) => {
                let r: Result<Requested, ManagementError> = Ok(
                    Requested::Pending { job: pending, now },
                );
                assert(attempt_made(before, *clock, current, made));
                assert(requested_from(before, *store, *clock, current, left, r));
                return r;
            },
            Err(error) => {
                if !lost_race(&error) {
                    let r: Result<Requested, ManagementError> = Err(
                        management_store_error(error.to_string()),
                    );
                    assert(attempt_made(before, *clock, current, made));
                    assert(requested_from(before, *store, *clock, current, left, r));
                    return r;
                }
                let fresh: Result<Job, ManagementError> = reload(store, current.id());
                proof {
                    made.fresh = fresh;
                }
                assert(attempt_made(before, *clock, current, made));
                match fresh {
                    Ok(next) => {
                        proof {
                            assert forall|after: JobStore<D>, r: Result<Requested, ManagementError>|
                                requested_from(
                                    *store,
                                    after,
                                    *clock,
                                    next,
                                    (left - 1) as nat,
                                    r,
                                ) implies #[trigger] requested_from(
                                start,
                                after,
                                *clock,
                                job,
                                CANCEL_ATTEMPTS as nat,
                                r,
                            ) by {
                                assert(requested_from(before, after, *clock, current, left, r));
                            }
                        }
                        current = next;
                    },
                    Err(failure) => {
                        let r: Result<Requested, ManagementError> = Err(failure);
                        assert(requested_from(before, *store, *clock, current, left, r));
                        return r;
                    },
                }
            },
        }
        attempt += 1;
    }
    let r: Result<Requested, ManagementError> = Err(
        ManagementError::StateConflict("job changed state during cancellation"),
    );
    assert(requested_from(*store, *store, *clock, current, 0, r));
    r
}

/// A job after its cancellation: the request is recorded, the job is done, or it is a recurring
/// job that moved on to its next deadline.
pub open spec fn cancelled_enough(state: JobState) -> bool {
    state == JobState::CancelRequested || state.terminal() || state == JobState::Waiting
}

/// The result is what ending the cancellation of a job gives whose run ended.
pub open spec fn cancellation_finished<D: Database, Clock: WallClock>(
    before: JobStore<D>,
    after: JobStore<D>,
    clock: Clock,
    job_id: JobId,
    run_state: RunState,
    r: Result<Job, ManagementError>,
) -> bool {
    match target_of(run_state) {
        None => after == before && r == Err::<Job, ManagementError>(
            ManagementError::StateConflict("run remained nonterminal after cancellation"),
        ),
        Some(target) => exists|current: Result<Job, ManagementError>|
            {
                &&& #[trigger] job_reloaded(before, job_id, current)
                &&& match current {
                    Err(error) => after == before && r == Err::<Job, ManagementError>(error),
                    Ok(job) => if job@.state.terminal() {
                        after == before && r == Ok::<Job, ManagementError>(job)
                    } else {
                        end_written(before, after, clock, job, target, r)
                    },
                }
            },
    }
}

/// The result is what writing the end of the cancellation of a job gives. Someone else may have done
/// that, or the job may have moved on.
pub open spec fn end_written<D: Database, Clock: WallClock>(
    before: JobStore<D>,
    after: JobStore<D>,
    clock: Clock,
    job: Job,
    target: JobState,
    r: Result<Job, ManagementError>,
) -> bool {
    exists|told: Result<UtcTimestamp, ManagementError>|
        {
            &&& #[trigger] now_read(clock, told)
            &&& match told {
                Err(error) => after == before && r == Err::<Job, ManagementError>(error),
                Ok(now) => exists|changed: Result<Job, StoreError>|
                    {
                        &&& #[trigger] job_changed(
                            before,
                            after,
                            user_change(job, target, "cancellation finished"@, now),
                            changed,
                        )
                        &&& match changed {
                            Ok(finished) => r == Ok::<Job, ManagementError>(finished),
                            Err(error) => if is_lost_race(error@) {
                                found_settled(after, job@.id, r)
                            } else {
                                store_failed(
                                    r,
                                    "management storage failed: "@ + store_message(error@),
                                )
                            },
                        }
                    },
            }
        }
}

/// The result is a job that someone else changed while its cancellation ended: it must be done, or
/// wait for its next deadline.
pub open spec fn found_settled<D: Database>(
    store: JobStore<D>,
    job_id: JobId,
    r: Result<Job, ManagementError>,
) -> bool {
    exists|fresh: Result<Job, ManagementError>|
        {
            &&& #[trigger] job_reloaded(store, job_id, fresh)
            &&& match fresh {
                Err(error) => r == Err::<Job, ManagementError>(error),
                Ok(job) => if job@.state.terminal() || job@.state == JobState::Waiting {
                    r == Ok::<Job, ManagementError>(job)
                } else {
                    store_failed(r, "job changed state during cancellation"@)
                },
            }
        }
}

/// Ends the cancellation of a job whose run ended. Someone else may have done so, or the job may
/// have moved on.
pub fn finish_job_cancellation<D: Database, Clock: WallClock>(
    store: &mut JobStore<D>,
    job_id: JobId,
    run_state: RunState,
    clock: &Clock,
) -> (r: Result<Job, ManagementError>)
    ensures
        cancellation_finished(*old(store), *final(store), *clock, job_id, run_state, r),
        r matches Ok(job) ==> job@.state.terminal() || job@.state == JobState::Waiting,
{
    let ghost before = *store;
    let target: JobState = match cancellation_target(run_state) {
        Ok(target) => target,
        Err(error) => {
            return Err(error);
        },
    };
    let current: Result<Job, ManagementError> = reload(store, job_id);
    assert(job_reloaded(before, job_id, current));
    let job: Job = match current {
        Ok(job) => job,
        Err(error) => {
            return Err(error);
        },
    };
    if job.state().is_terminal() {
        return Ok(job);
    }
    let told: Result<UtcTimestamp, ManagementError> = now_or_error(clock);
    assert(now_read(*clock, told));
    let now: UtcTimestamp = match told {
        Ok(now) => now,
        Err(error) => {
            let r: Result<Job, ManagementError> = Err(error);
            assert(end_written(before, *store, *clock, job, target, r));
            return r;
        },
    };
    let changed: Result<Job, StoreError> = store.transition_job(
        job.id(),
        job.revision(),
        target,
        false,
        TransitionActor::Cli,
        "cancellation finished",
        now,
    );
    let ghost change = user_change(job, target, "cancellation finished"@, now);
    proof {
        assert(job_changed(before, *store, change, changed));
        lemma_changed_job_was_allowed(before, *store, change, changed);
    }
    match changed {
        Ok(finished) => {
            let r: Result<Job, ManagementError> = Ok(finished);
            assert(end_written(before, *store, *clock, job, target, r));
            r
        },
        Err(error) => {
            if lost_race(&error) {
                let fresh: Result<Job, ManagementError> = reload(store, job.id());
                assert(job_reloaded(*store, job@.id, fresh));
                let r: Result<Job, ManagementError> = match fresh {
                    Ok(moved) => {
                        if moved.state().is_terminal() || moved.state() == JobState::Waiting {
                            Ok(moved)
                        } else {
                            Err(
                                management_store_error(
                                    "job changed state during cancellation".to_owned(),
                                ),
                            )
                        }
                    },
                    Err(failure) => Err(failure),
                };
                assert(found_settled(*store, job@.id, r));
                assert(end_written(before, *store, *clock, job, target, r));
                return r;
            }
            let inner: ManagementError = management_store_error(error.to_string());
            let r: Result<Job, ManagementError> = Err(management_store_error(inner.to_string()));
            assert(end_written(before, *store, *clock, job, target, r));
            r
        },
    }
}

/// What came back while a job is cancelled: the time, the active run and what came of the request,
/// with the store once that was recorded; and what came of stopping the run, where one was stopped,
/// with the time it was given and the store after that.
pub struct CancelSteps<D> {
    pub told: Result<UtcTimestamp, ManagementError>,
    pub active: Result<Option<Run>, ManagementStoreError>,
    pub requested: Result<Requested, ManagementError>,
    pub asked: JobStore<D>,
    pub stopped: Option<(Run, Result<Run, ManagementError>)>,
    pub grace: DurationSeconds,
    pub left: JobStore<D>,
}

/// The result is what cancelling a job gives once the request was recorded: without an active run
/// the job is cancelled at once, else its run is stopped first.
pub open spec fn cancellation_carried_out<D: Database, Clock: WallClock>(
    after: JobStore<D>,
    clock: Clock,
    steps: CancelSteps<D>,
    requested: Job,
    now: UtcTimestamp,
    r: Result<Job, ManagementError>,
) -> bool {
    match steps.active->Ok_0 {
        None => {
            &&& steps.stopped is None
            &&& exists|changed: Result<Job, StoreError>|
                {
                    &&& #[trigger] job_changed(
                        steps.asked,
                        after,
                        user_change(
                            requested,
                            JobState::Cancelled,
                            "cancelled before command start"@,
                            now,
                        ),
                        changed,
                    )
                    &&& match changed {
                        Ok(cancelled) => r == Ok::<Job, ManagementError>(cancelled),
                        Err(error) => store_failed(r, store_message(error@)),
                    }
                }
        },
        Some(run) => steps.stopped matches Some((stopped, ended)) && stopped == run && match ended {
            Err(error) => after == steps.left && r == Err::<Job, ManagementError>(error),
            Ok(end) => cancellation_finished(
                steps.left,
                after,
                clock,
                requested@.id,
                end@.state,
                r,
            ),
        },
    }
}

/// The result is what cancelling a job gives that was found: the clock must work, the active run is
/// asked for, and the request is recorded before anything else is done.
pub open spec fn found_job_cancelled<D: Database, Clock: WallClock>(
    before: JobStore<D>,
    after: JobStore<D>,
    clock: Clock,
    job: Job,
    steps: CancelSteps<D>,
    r: Result<Job, ManagementError>,
) -> bool {
    let untouched = after == before && steps.stopped is None;
    match need_of(job@.state) {
        CancelNeed::Satisfied => untouched && r == Ok::<Job, ManagementError>(job),
        CancelNeed::TooLate => untouched && r == Err::<Job, ManagementError>(
            ManagementError::StateConflict("completed job cannot be cancelled"),
        ),
        CancelNeed::Request => {
            &&& now_read(clock, steps.told)
            &&& match steps.told {
                Err(error) => untouched && r == Err::<Job, ManagementError>(error),
                Ok(_) => {
                    &&& active_run_found(before, job@.id, steps.active)
                    &&& match steps.active {
                        Err(error) => untouched && r == Err::<Job, ManagementError>(
                            ManagementError::Store(error),
                        ),
                        Ok(_) => {
                            &&& requested_from(
                                before,
                                steps.asked,
                                clock,
                                job,
                                CANCEL_ATTEMPTS as nat,
                                steps.requested,
                            )
                            &&& match steps.requested {
                                Err(error) => {
                                    &&& after == steps.asked && steps.stopped is None
                                    &&& r == Err::<Job, ManagementError>(error)
                                },
                                Ok(Requested::Satisfied(fresh)) => {
                                    &&& after == steps.asked && steps.stopped is None
                                    &&& r == Ok::<Job, ManagementError>(fresh)
                                },
                                Ok(Requested::Pending { job: requested, now }) =>
                                cancellation_carried_out(after, clock, steps, requested, now, r),
                            }
                        },
                    }
                },
            }
        },
    }
}

/// The result is what cancelling the job gives that a prefix names.
pub open spec fn job_cancelled<D: Database, Clock: WallClock>(
    before: JobStore<D>,
    after: JobStore<D>,
    clock: Clock,
    prefix: Seq<char>,
    grace: DurationSeconds,
    steps: CancelSteps<D>,
    r: Result<Job, ManagementError>,
) -> bool {
    &&& steps.grace == grace
    &&& exists|named: Result<Job, ManagementError>|
        {
            &&& #[trigger] job_named(before, prefix, named)
            &&& match named {
                Err(error) => {
                    &&& after == before && steps.stopped is None
                    &&& r == Err::<Job, ManagementError>(error)
                },
                Ok(job) => found_job_cancelled(before, after, clock, job, steps, r),
            }
        }
}

/// Cancels the job that a prefix names. The request is recorded first; then its run is stopped, once,
/// on the store as the request left it.
pub fn cancel_job<D: Database, Clock: WallClock, Stopper: RunStopper<D>>(
    store: &mut JobStore<D>,
    clock: &Clock,
    stopper: &Stopper,
    prefix: &str,
    grace: DurationSeconds,
) -> (r: Result<Job, ManagementError>)
    ensures
        exists|steps: CancelSteps<D>|
            {
                &&& #[trigger] job_cancelled(
                    *old(store),
                    *final(store),
                    *clock,
                    prefix@,
                    grace,
                    steps,
                    r,
                )
                &&& steps.stopped matches Some((run, ended)) ==> exists|at: &mut JobStore<D>|
                    {
                        &&& #[trigger] call_ensures(
                            Stopper::cancel_active_run,
                            (stopper, at, &run, steps.grace),
                            ended,
                        )
                        &&& *at == steps.asked
                        &&& *final(at) == steps.left
                    }
            },
        r matches Ok(job) ==> cancelled_enough(job@.state),
        !valid_prefix(prefix@) ==> *final(store) == *old(store) && r == Err::<Job, ManagementError>(
            ManagementError::InvalidPrefix,
        ),
{
    let ghost before = *store;
    let ghost mut steps: CancelSteps<D> = arbitrary();
    proof {
        steps.stopped = None;
        steps.grace = grace;
    }
    let named: Result<Job, ManagementError> = resolve_job(store, prefix);
    assert(job_named(before, prefix@, named));
    let job: Job = match named {
        Ok(job) => job,
        Err(error) => {
            let r: Result<Job, ManagementError> = Err(error);
            assert(job_cancelled(before, *store, *clock, prefix@, grace, steps, r));
            return r;
        },
    };
    match cancel_need(job.state()) {
        CancelNeed::Satisfied => {
            let r: Result<Job, ManagementError> = Ok(job);
            assert(job_cancelled(before, *store, *clock, prefix@, grace, steps, r));
            return r;
        },
        CancelNeed::TooLate => {
            let r: Result<Job, ManagementError> = Err(
                ManagementError::StateConflict("completed job cannot be cancelled"),
            );
            assert(job_cancelled(before, *store, *clock, prefix@, grace, steps, r));
            return r;
        },
        CancelNeed::Request => {},
    }
    let told: Result<UtcTimestamp, ManagementError> = now_or_error(clock);
    proof {
        steps.told = told;
    }
    match told {
        Ok(_) => {},
        Err(error) => {
            let r: Result<Job, ManagementError> = Err(error);
            assert(job_cancelled(before, *store, *clock, prefix@, grace, steps, r));
            return r;
        },
    }
    let found: Result<Option<Run>, ManagementStoreError> = store.latest_active_run(job.id());
    proof {
        steps.active = found;
        assert(active_run_found(before, job@.id, found));
    }
    let active: Option<Run> = match found {
        Ok(active) => active,
        Err(error) => {
            let r: Result<Job, ManagementError> = Err(ManagementError::Store(error));
            assert(job_cancelled(before, *store, *clock, prefix@, grace, steps, r));
            return r;
        },
    };
    let outcome: Result<Requested, ManagementError> = request_cancellation(store, clock, job);
    proof {
        steps.requested = outcome;
        steps.asked = *store;
    }
    let (requested, now): (Job, UtcTimestamp) = match outcome {
        Ok(Requested::Satisfied(fresh)) => {
            let r: Result<Job, ManagementError> = Ok(fresh);
            assert(job_cancelled(before, *store, *clock, prefix@, grace, steps, r));
            return r;
        },
        Ok(Requested::Pending { job: pending, now }) => (pending, now),
        Err(error) => {
            let r: Result<Job, ManagementError> = Err(error);
            assert(job_cancelled(before, *store, *clock, prefix@, grace, steps, r));
            return r;
        },
    };
    let run: Run = match active {
        Some(run) => run,
        None => {
            let changed: Result<Job, StoreError> = store.transition_job(
                requested.id(),
                requested.revision(),
                JobState::Cancelled,
                false,
                TransitionActor::Cli,
                "cancelled before command start",
                now,
            );
            let ghost change = user_change(
                requested,
                JobState::Cancelled,
                "cancelled before command start"@,
                now,
            );
            proof {
                assert(job_changed(steps.asked, *store, change, changed));
                lemma_changed_job_was_allowed(steps.asked, *store, change, changed);
            }
            let r: Result<Job, ManagementError> = match changed {
                Ok(cancelled) => Ok(cancelled),
                Err(error) => Err(management_store_error(error.to_string())),
            };
            assert(cancellation_carried_out(*store, *clock, steps, requested, now, r));
            assert(job_cancelled(before, *store, *clock, prefix@, grace, steps, r));
            return r;
        },
    };
    let ended: Result<Run, ManagementError> = stopper.cancel_active_run(store, &run, grace);
    proof {
        steps.stopped = Some((run, ended));
        steps.left = *store;
    }
    let r: Result<Job, ManagementError> = match ended {
        Ok(end) => finish_job_cancellation(store, requested.id(), end.state(), clock),
        Err(error) => Err(error),
    };
    assert(cancellation_carried_out(*store, *clock, steps, requested, now, r));
    assert(job_cancelled(before, *store, *clock, prefix@, grace, steps, r));
    r
}

} // verus!
