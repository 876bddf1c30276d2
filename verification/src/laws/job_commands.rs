//! What the commands on saved jobs do.
use crate::application::cancel::{
    cancelled_as, CancelAnswers, CancelRunError, CancelRunResult, ProcessGroupCanceller,
};
use crate::application::clock::{clock_error_message, ClockError, WallClock};
use crate::application::history::LogFiles;
use crate::application::list::{
    job_named, removed_as, removes, rerun_as, reruns, ChangeAnswers, ManagementError,
    ManagementStoreError,
};
use crate::application::submit::{SupervisorAckError, SupervisorAcknowledger};
use crate::cli::args::ManagementCommand;
use crate::cli::cancel::{
    ask_to_stop, attempt_made, cancel_job, finish_job_cancellation, found_job_cancelled,
    is_lost_race, job_cancelled, need_of, now_read, request_cancellation, request_recorded,
    requested_from, run_found, stop_followed, store_failed, time_told, user_change, CANCEL_ATTEMPTS,
    CancelAttempt, CancelNeed, CancelSteps, Requested, RunStopper,
};
use crate::cli::error::CliError;
use crate::cli::manage::{
    chosen_grace, chosen_state, command_shown, failed_as, failed_with, job_hidden, job_removed,
    job_requeued, job_rerun, manage, rerun_shown, runs_shown, shows_job, ManageOutcome, ManageSteps,
    ManageTools,
};
use crate::domain::duration::{duration_of_text, DurationError, DurationSeconds};
use crate::domain::id::JobId;
use crate::domain::job::Job;
use crate::domain::primitives::UtcTimestamp;
use crate::domain::run::{ClaimToken, OutcomeModel, Run};
use crate::domain::schedule::{MissedPolicy, RuntimeTier};
use crate::domain::state::{JobState, RunState};
use crate::infrastructure::process::ProcessTable;
use crate::infrastructure::sqlite::database::{store_message, StoreError};
use crate::infrastructure::sqlite::job_store::{
    job_changed, lemma_changed_job_was_allowed, JobStore,
};
use crate::infrastructure::sqlite::management::active_run_found;
use crate::infrastructure::sqlite::names::{job_state_name, lemma_names_read_back};
use crate::infrastructure::sqlite::run_store::end_recorded;
use crate::infrastructure::sqlite::tables::Database;
use super::lifecycle::ended;
use super::management::is_done;
use vstd::prelude::*;

verus! {

// ---------------------------------------------------------------------------------------------
// Cancelling
// ---------------------------------------------------------------------------------------------
proof fn lemma_requested<D: Database, Clock: WallClock>(
    before: JobStore<D>,
    after: JobStore<D>,
    clock: Clock,
    job: Job,
    attempts: nat,
    r: Result<Requested, ManagementError>,
)
    requires
        requested_from(before, after, clock, job, attempts, r),
    ensures
        r matches Ok(Requested::Satisfied(found)) ==> found@.state == JobState::CancelRequested
            || found@.state == JobState::Cancelled,
        r matches Ok(Requested::Pending { job: recorded, .. }) ==> recorded@.state
            == JobState::CancelRequested,
    decreases attempts,
{
    if attempts > 0 && need_of(job@.state) == CancelNeed::Request {
        let attempt = choose|attempt: CancelAttempt<D>|
            {
                &&& #[trigger] attempt_made(before, clock, job, attempt)
                &&& match attempt.told {
                    Err(error) => after == attempt.store && r == Err::<Requested, ManagementError>(
                        error,
                    ),
                    Ok(now) => match attempt.changed {
                        Ok(pending) => after == attempt.store && r == Ok::<
                            Requested,
                            ManagementError,
                        >(Requested::Pending { job: pending, now }),
                        Err(error) => if !is_lost_race(error@) {
                            after == attempt.store && store_failed(
                                r,
                                store_message(error@),
                            )
                        } else {
                            match attempt.fresh {
                                Err(failure) => after == attempt.store && r == Err::<
                                    Requested,
                                    ManagementError,
                                >(failure),
                                Ok(fresh) => requested_from(
                                    attempt.store,
                                    after,
                                    clock,
                                    fresh,
                                    (attempts - 1) as nat,
                                    r,
                                ),
                            }
                        },
                    },
                }
            };
        if let Ok(now) = attempt.told {
            match attempt.changed {
                Ok(pending) => {
                    lemma_changed_job_was_allowed(
                        before,
                        attempt.store,
                        user_change(job, JobState::CancelRequested, "cancel requested"@, now),
                        attempt.changed,
                    );
                },
                Err(error) => {
                    if is_lost_race(error@) {
                        if let Ok(fresh) = attempt.fresh {
                            lemma_requested(
                                attempt.store,
                                after,
                                clock,
                                fresh,
                                (attempts - 1) as nat,
                                r,
                            );
                        }
                    }
                },
            }
        }
    }
}

/// A request to cancel that was recorded leaves the job so; one that was not needed found it so.
pub proof fn lemma_recorded_request_is_seen<D: Database, Clock: WallClock>(
    before: JobStore<D>,
    after: JobStore<D>,
    clock: &Clock,
    job: Job,
    r: Result<Requested, ManagementError>,
)
    requires
        exists|store: &mut JobStore<D>|
            {
                &&& #[trigger] call_ensures(
                    request_cancellation::<D, Clock>,
                    (store, clock, job),
                    r,
                )
                &&& *store == before
                &&& *final(store) == after
            },
    ensures
        r matches Ok(Requested::Pending { job: recorded, now }) ==> recorded@.state
            == JobState::CancelRequested && recorded@.updated_at_utc == now,
        r matches Ok(Requested::Satisfied(found)) ==> found@.state == JobState::CancelRequested
            || found@.state == JobState::Cancelled,
        job@.state == JobState::Cancelled || job@.state == JobState::CancelRequested ==> after
            == before && r == Ok::<Requested, ManagementError>(Requested::Satisfied(job)),
        is_done(job@) && job@.state != JobState::Cancelled ==> after == before && r is Err,
{
}

/// Cancelling a job that is done otherwise is refused, and one that was cancelled, or is about to be, is
/// left as it is; in both cases nothing changes.
pub proof fn lemma_done_jobs_are_not_cancelled<
    D: Database,
    Clock: WallClock,
    Stopper: RunStopper<D>,
>(
    before: JobStore<D>,
    after: JobStore<D>,
    clock: &Clock,
    stopper: &Stopper,
    prefix: &str,
    grace: DurationSeconds,
    r: Result<Job, ManagementError>,
    job: Job,
)
    requires
        exists|store: &mut JobStore<D>|
            {
                &&& #[trigger] call_ensures(
                    cancel_job::<D, Clock, Stopper>,
                    (store, clock, stopper, prefix, grace),
                    r,
                )
                &&& *store == before
                &&& *final(store) == after
            },
        forall|named: Result<Job, ManagementError>| #[trigger]
            job_named(before, prefix@, named) ==> named == Ok::<Job, ManagementError>(job),
    ensures
        is_done(job@) && job@.state != JobState::Cancelled ==> after == before && r == Err::<
            Job,
            ManagementError,
        >(ManagementError::StateConflict("completed job cannot be cancelled")),
        job@.state == JobState::Cancelled || job@.state == JobState::CancelRequested ==> after
            == before && r == Ok::<Job, ManagementError>(job),
{
}

/// A job without an active run is cancelled at once: where that succeeds it is cancelled, unless someone
/// else had asked for that in between.
pub proof fn lemma_jobs_without_a_run_are_cancelled_at_once<
    D: Database,
    Clock: WallClock,
    Stopper: RunStopper<D>,
>(
    before: JobStore<D>,
    after: JobStore<D>,
    clock: &Clock,
    stopper: &Stopper,
    prefix: &str,
    grace: DurationSeconds,
    cancelled: Job,
)
    requires
        exists|store: &mut JobStore<D>|
            {
                &&& #[trigger] call_ensures(
                    cancel_job::<D, Clock, Stopper>,
                    (store, clock, stopper, prefix, grace),
                    Ok::<Job, ManagementError>(cancelled),
                )
                &&& *store == before
                &&& *final(store) == after
            },
        forall|id: JobId, active: Result<Option<Run>, ManagementStoreError>| #[trigger]
            active_run_found(before, id, active) ==> active == Ok::<
                Option<Run>,
                ManagementStoreError,
            >(None),
    ensures
        cancelled@.state == JobState::Cancelled || cancelled@.state == JobState::CancelRequested,
{
    let r = Ok::<Job, ManagementError>(cancelled);
    let steps = choose|steps: CancelSteps<D>| #[trigger]
        job_cancelled(before, after, *clock, prefix@, grace, steps, r);
    let named = choose|named: Result<Job, ManagementError>|
        {
            &&& #[trigger] job_named(before, prefix@, named)
            &&& named matches Ok(job) && found_job_cancelled(
                before,
                after,
                *clock,
                job,
                steps,
                r,
            )
        };
    let job = named->Ok_0;
    if need_of(job@.state) == CancelNeed::Request {
        lemma_requested(
            before,
            steps.asked,
            *clock,
            job,
            CANCEL_ATTEMPTS as nat,
            steps.requested,
        );
        if let Ok(Requested::Pending { job: requested, now }) = steps.requested {
            let change = user_change(
                requested,
                JobState::Cancelled,
                "cancelled before command start"@,
                now,
            );
            let changed = choose|changed: Result<Job, StoreError>|
                {
                    &&& #[trigger] job_changed(steps.asked, after, change, changed)
                    &&& match changed {
                        Ok(done) => r == Ok::<Job, ManagementError>(done),
                        Err(error) => store_failed(
                            r,
                            store_message(error@),
                        ),
                    }
                };
            lemma_changed_job_was_allowed(steps.asked, after, change, changed);
        }
    }
}

/// A cancellation ends only once the run has ended, and then the job is done or waits for its next
/// occurrence.
pub proof fn lemma_cancellation_ends_with_the_run<D: Database, Clock: WallClock>(
    before: JobStore<D>,
    after: JobStore<D>,
    job_id: JobId,
    run_state: RunState,
    clock: &Clock,
    r: Result<Job, ManagementError>,
)
    requires
        exists|store: &mut JobStore<D>|
            {
                &&& #[trigger] call_ensures(
                    finish_job_cancellation::<D, Clock>,
                    (store, job_id, run_state, clock),
                    r,
                )
                &&& *store == before
                &&& *final(store) == after
            },
    ensures
        !ended(run_state) ==> after == before && r is Err,
        r matches Ok(job) ==> is_done(job@) || job@.state == JobState::Waiting,
{
}

// ---------------------------------------------------------------------------------------------
// Commands
// ---------------------------------------------------------------------------------------------
/// A run is given the time that was asked for to end by itself, else the configured one.
pub proof fn lemma_asked_grace_is_given(
    grace: &Option<String>,
    configured: DurationSeconds,
    r: Result<DurationSeconds, String>,
)
    requires
        call_ensures(chosen_grace, (grace, configured), r),
    ensures
        grace is None ==> r == Ok::<DurationSeconds, String>(configured),
        *grace matches Some(text) ==> match r {
            Ok(chosen) => duration_of_text(text@) == Ok::<u64, DurationError>(chosen@),
            Err(_) => duration_of_text(text@) is Err,
        },
{
}

/// Jobs are listed in the state that was named; an unknown name is refused.
pub proof fn lemma_named_state_is_listed(
    state: &Option<String>,
    r: Result<Option<JobState>, String>,
    wanted: JobState,
)
    requires
        call_ensures(chosen_state, (state,), r),
    ensures
        state is None ==> r == Ok::<Option<JobState>, String>(None),
        *state matches Some(name) ==> name@ == job_state_name(wanted) ==> r == Ok::<
            Option<JobState>,
            String,
        >(Some(wanted)),
        *state matches Some(name) ==> r is Ok ==> r->Ok_0 is Some,
{
    lemma_names_read_back(wanted, RunState::Starting, RuntimeTier::Session, MissedPolicy::Hold);
}

/// Commands that only read change nothing and tell nobody; the kind of what is shown is that of the
/// command.
pub proof fn lemma_reading_commands_change_nothing<
    D: Database,
    Clock: WallClock,
    Stopper: RunStopper<D>,
    Logs: LogFiles,
    Table: ProcessTable,
    Acknowledger: SupervisorAcknowledger,
>(
    before: JobStore<D>,
    after: JobStore<D>,
    tools: &ManageTools<Clock, Stopper, Logs, Table>,
    told_before: Acknowledger,
    told_after: Acknowledger,
    command: &ManagementCommand,
    state_directory: &str,
    grace: DurationSeconds,
    json: bool,
    r: Result<ManageOutcome, CliError>,
)
    requires
        exists|store: &mut JobStore<D>, acknowledger: &mut Acknowledger|
            {
                &&& #[trigger] call_ensures(
                    manage::<D, Clock, Stopper, Logs, Table, Acknowledger>,
                    (store, tools, acknowledger, command, state_directory, grace, json),
                    r,
                )
                &&& *store == before
                &&& *final(store) == after
                &&& *acknowledger == told_before
                &&& *final(acknowledger) == told_after
            },
    ensures
        !(command is Cancel || command is Remove || command is Run) ==> after == before,
        !(command is Run) ==> told_after == told_before,
        r matches Err(error) ==> error.json == json,
        command is List && r is Ok ==> r->Ok_0 is Jobs,
        command is Show && r is Ok ==> r->Ok_0 is Job,
        command is History && r is Ok ==> r->Ok_0 is Runs,
        command is Output && r is Ok ==> r->Ok_0 is Output,
        command is Ps && r is Ok ==> r->Ok_0 is Processes,
        *command matches ManagementCommand::List { limit, .. } ==> !(1 <= limit <= 1000) ==> (
        r matches Err(error) && error.exit == 2),
        command is Remove && r is Ok ==> r->Ok_0 is Job,
        command is Cancel && r is Ok ==> (r->Ok_0 matches ManageOutcome::Job(job) && (is_done(job@)
            || job@.state == JobState::CancelRequested || job@.state == JobState::Waiting)),
{
}

/// A job that is to be shown is the one that its prefix names.
pub proof fn lemma_named_job_is_shown<
    D: Database,
    Clock: WallClock,
    Stopper: RunStopper<D>,
    Logs: LogFiles,
    Table: ProcessTable,
    Acknowledger: SupervisorAcknowledger,
>(
    before: JobStore<D>,
    tools: &ManageTools<Clock, Stopper, Logs, Table>,
    prefix: String,
    command: &ManagementCommand,
    state_directory: &str,
    grace: DurationSeconds,
    json: bool,
    shown: Job,
)
    requires
        *command == (ManagementCommand::Show { job: prefix }),
        exists|store: &mut JobStore<D>, acknowledger: &mut Acknowledger|
            {
                &&& #[trigger] call_ensures(
                    manage::<D, Clock, Stopper, Logs, Table, Acknowledger>,
                    (store, tools, acknowledger, command, state_directory, grace, json),
                    Ok::<ManageOutcome, CliError>(ManageOutcome::Job(shown)),
                )
                &&& *store == before
            },
    ensures
        job_named(before, prefix@, Ok::<Job, ManagementError>(shown)),
{
    let (steps, after) = choose|steps: ManageSteps<D>, after: JobStore<D>| #[trigger]
        command_shown(
            before,
            after,
            tools.clock,
            tools.logs,
            tools.inspector,
            *command,
            state_directory@,
            grace,
            json,
            steps,
            Ok::<ManageOutcome, CliError>(ManageOutcome::Job(shown)),
        );
    let named = choose|named: Result<Job, ManagementError>| #[trigger]
        job_named(before, prefix@, named) && shows_job(
            named,
            json,
            Ok::<ManageOutcome, CliError>(ManageOutcome::Job(shown)),
        );
    assert(named == Ok::<Job, ManagementError>(shown));
}

/// The supervisor is told of a job that is run again only once it waits again, and then by its identifier
/// and its new revision.
pub proof fn lemma_rerun_is_announced_once_it_waits<
    D: Database,
    Clock: WallClock,
    Stopper: RunStopper<D>,
    Logs: LogFiles,
    Table: ProcessTable,
    Acknowledger: SupervisorAcknowledger,
>(
    tools: &ManageTools<Clock, Stopper, Logs, Table>,
    told_before: Acknowledger,
    told_after: Acknowledger,
    command: &ManagementCommand,
    state_directory: &str,
    grace: DurationSeconds,
    json: bool,
    shown: Job,
)
    requires
        command is Run,
        exists|store: &mut JobStore<D>, acknowledger: &mut Acknowledger|
            {
                &&& #[trigger] call_ensures(
                    manage::<D, Clock, Stopper, Logs, Table, Acknowledger>,
                    (store, tools, acknowledger, command, state_directory, grace, json),
                    Ok::<ManageOutcome, CliError>(ManageOutcome::Job(shown)),
                )
                &&& *acknowledger == told_before
                &&& *final(acknowledger) == told_after
            },
    ensures
        exists|to: &mut Acknowledger, answer: Result<(), SupervisorAckError>|
            {
                &&& #[trigger] call_ensures(
                    Acknowledger::acknowledge,
                    (to, shown@.id, shown@.revision),
                    answer,
                )
                &&& answer is Ok
                &&& *to == told_before
                &&& *final(to) == told_after
            },
{
}

/// A job that is not done is removed only where it may be cancelled first; otherwise the removal is refused
/// and nothing changes.
pub proof fn lemma_open_jobs_are_not_removed<
    D: Database,
    Clock: WallClock,
    Stopper: RunStopper<D>,
    Logs: LogFiles,
    Table: ProcessTable,
    Acknowledger: SupervisorAcknowledger,
>(
    before: JobStore<D>,
    after: JobStore<D>,
    tools: &ManageTools<Clock, Stopper, Logs, Table>,
    told_before: Acknowledger,
    told_after: Acknowledger,
    command: &ManagementCommand,
    state_directory: &str,
    grace: DurationSeconds,
    json: bool,
    r: Result<ManageOutcome, CliError>,
    prefix: String,
    keep_history: bool,
    job: Job,
)
    requires
        exists|store: &mut JobStore<D>, acknowledger: &mut Acknowledger|
            {
                &&& #[trigger] call_ensures(
                    manage::<D, Clock, Stopper, Logs, Table, Acknowledger>,
                    (store, tools, acknowledger, command, state_directory, grace, json),
                    r,
                )
                &&& *store == before
                &&& *final(store) == after
                &&& *acknowledger == told_before
                &&& *final(acknowledger) == told_after
            },
        *command == (ManagementCommand::Remove { job: prefix, cancel: false, keep_history }),
        forall|named: Result<Job, ManagementError>| #[trigger]
            job_named(before, prefix@, named) ==> named == Ok::<Job, ManagementError>(job),
        !is_done(job@),
    ensures
        r matches Err(error) && error.exit == 4,
        after == before,
{
    let steps = choose|steps: ManageSteps<D>| #[trigger]
        command_shown(
            before,
            after,
            tools.clock,
            tools.logs,
            tools.inspector,
            *command,
            state_directory@,
            grace,
            json,
            steps,
            r,
        );
    let removed = choose|removed: Result<Job, ManagementError>|
        {
            &&& #[trigger] job_removed(before, after, prefix@, keep_history, removed)
            &&& shows_job(removed, json, r)
        };
    let answers = choose|answers: ChangeAnswers|
        {
            &&& removed == #[trigger] removed_as(answers)
            &&& job_named(before, prefix@, answers.named)
            &&& if removes(answers) {
                job_hidden(before, after, answers.named->Ok_0, keep_history, answers.changed)
            } else {
                after == before
            }
        };
    assert(answers.named == Ok::<Job, ManagementError>(job));
}

/// A job whose outcome is not known is run again only where that was confirmed, and one that is not done
/// never is; otherwise nothing changes and nobody is told.
pub proof fn lemma_unconfirmed_reruns_are_refused<
    D: Database,
    Clock: WallClock,
    Stopper: RunStopper<D>,
    Logs: LogFiles,
    Table: ProcessTable,
    Acknowledger: SupervisorAcknowledger,
>(
    before: JobStore<D>,
    after: JobStore<D>,
    tools: &ManageTools<Clock, Stopper, Logs, Table>,
    told_before: Acknowledger,
    told_after: Acknowledger,
    command: &ManagementCommand,
    state_directory: &str,
    grace: DurationSeconds,
    json: bool,
    r: Result<ManageOutcome, CliError>,
    prefix: String,
    yes: bool,
    job: Job,
)
    requires
        exists|store: &mut JobStore<D>, acknowledger: &mut Acknowledger|
            {
                &&& #[trigger] call_ensures(
                    manage::<D, Clock, Stopper, Logs, Table, Acknowledger>,
                    (store, tools, acknowledger, command, state_directory, grace, json),
                    r,
                )
                &&& *store == before
                &&& *final(store) == after
                &&& *acknowledger == told_before
                &&& *final(acknowledger) == told_after
            },
        *command == (ManagementCommand::Run { job: prefix, yes }),
        forall|named: Result<Job, ManagementError>| #[trigger]
            job_named(before, prefix@, named) ==> named == Ok::<Job, ManagementError>(job),
        !is_done(job@) || (job@.state == JobState::Interrupted && !yes),
    ensures
        r is Err,
        after == before,
        told_after == told_before,
{
    let steps = choose|steps: ManageSteps<D>| #[trigger]
        command_shown(
            before,
            after,
            tools.clock,
            tools.logs,
            tools.inspector,
            *command,
            state_directory@,
            grace,
            json,
            steps,
            r,
        );
    let told = choose|told: Result<UtcTimestamp, ClockError>|
        {
            &&& #[trigger] time_told(tools.clock, told)
            &&& match told {
                Err(error) => {
                    &&& after == before && steps.acknowledged is None
                    &&& failed_as(r, json, 70, "INTERNAL_ERROR"@, clock_error_message(error))
                },
                Ok(now) => exists|rerun: Result<Job, ManagementError>|
                    {
                        &&& #[trigger] job_rerun(before, after, prefix@, yes, now, rerun)
                        &&& match rerun {
                            Err(error) => steps.acknowledged is None && failed_with(
                                r,
                                json,
                                error,
                            ),
                            Ok(again) => steps.acknowledged matches Some((handed, answer))
                                && handed == again && rerun_shown(rerun, answer, json, r),
                        }
                    },
            }
        };
    if let Ok(now) = told {
        let rerun = choose|rerun: Result<Job, ManagementError>|
            {
                &&& #[trigger] job_rerun(before, after, prefix@, yes, now, rerun)
                &&& match rerun {
                    Err(error) => steps.acknowledged is None && failed_with(r, json, error),
                    Ok(again) => steps.acknowledged matches Some((handed, answer)) && handed == again
                        && rerun_shown(rerun, answer, json, r),
                }
            };
        let answers = choose|answers: ChangeAnswers|
            {
                &&& rerun == #[trigger] rerun_as(yes, answers)
                &&& job_named(before, prefix@, answers.named)
                &&& if reruns(yes, answers) {
                    job_requeued(before, after, answers.named->Ok_0, now, answers.changed)
                } else {
                    after == before
                }
            };
        assert(answers.named == Ok::<Job, ManagementError>(job));
    }
}

/// The history of a job shows runs of that job only, and all of them have ended.
pub proof fn lemma_history_is_of_the_named_job<
    D: Database,
    Clock: WallClock,
    Stopper: RunStopper<D>,
    Logs: LogFiles,
    Table: ProcessTable,
    Acknowledger: SupervisorAcknowledger,
>(
    before: JobStore<D>,
    after: JobStore<D>,
    tools: &ManageTools<Clock, Stopper, Logs, Table>,
    told_before: Acknowledger,
    told_after: Acknowledger,
    command: &ManagementCommand,
    state_directory: &str,
    grace: DurationSeconds,
    json: bool,
    r: Result<ManageOutcome, CliError>,
    prefix: String,
    limit: usize,
    job: Job,
    runs: Vec<Run>,
)
    requires
        exists|store: &mut JobStore<D>, acknowledger: &mut Acknowledger|
            {
                &&& #[trigger] call_ensures(
                    manage::<D, Clock, Stopper, Logs, Table, Acknowledger>,
                    (store, tools, acknowledger, command, state_directory, grace, json),
                    r,
                )
                &&& *store == before
                &&& *final(store) == after
                &&& *acknowledger == told_before
                &&& *final(acknowledger) == told_after
            },
        *command == (ManagementCommand::History { job: Some(prefix), limit }),
        r == Ok::<ManageOutcome, CliError>(ManageOutcome::Runs(runs)),
        forall|named: Result<Job, ManagementError>| #[trigger]
            job_named(before, prefix@, named) ==> named == Ok::<Job, ManagementError>(job),
    ensures
        runs@.len() <= limit,
        forall|i: int|
            0 <= i < runs@.len() ==> (#[trigger] runs@[i])@.job_id == job@.id && ended(
                runs@[i]@.state,
            ),
{
    let steps = choose|steps: ManageSteps<D>| #[trigger]
        command_shown(
            before,
            after,
            tools.clock,
            tools.logs,
            tools.inspector,
            *command,
            state_directory@,
            grace,
            json,
            steps,
            r,
        );
    assert(runs_shown(before, Some(job@.id), limit, json, r));
}

/// A time to end that is no duration refuses the cancellation before anything is done.
pub proof fn lemma_malformed_grace_is_refused<
    D: Database,
    Clock: WallClock,
    Stopper: RunStopper<D>,
    Logs: LogFiles,
    Table: ProcessTable,
    Acknowledger: SupervisorAcknowledger,
>(
    before: JobStore<D>,
    after: JobStore<D>,
    tools: &ManageTools<Clock, Stopper, Logs, Table>,
    told_before: Acknowledger,
    told_after: Acknowledger,
    command: &ManagementCommand,
    state_directory: &str,
    grace: DurationSeconds,
    json: bool,
    r: Result<ManageOutcome, CliError>,
    prefix: String,
    text: String,
)
    requires
        exists|store: &mut JobStore<D>, acknowledger: &mut Acknowledger|
            {
                &&& #[trigger] call_ensures(
                    manage::<D, Clock, Stopper, Logs, Table, Acknowledger>,
                    (store, tools, acknowledger, command, state_directory, grace, json),
                    r,
                )
                &&& *store == before
                &&& *final(store) == after
                &&& *acknowledger == told_before
                &&& *final(acknowledger) == told_after
            },
        *command == (ManagementCommand::Cancel { job: prefix, grace: Some(text) }),
        duration_of_text(text@) is Err,
    ensures
        r matches Err(error) && error.exit == 2 && error.code@ == "INVALID_ARGUMENT"@,
        after == before,
{
}

/// A run whose command was not started yet ends as cancelled once that was recorded; any other run is left
/// to its monitor.
pub proof fn lemma_runs_not_started_end_as_cancelled<D: Database, Clock: WallClock>(
    before: JobStore<D>,
    after: JobStore<D>,
    clock: Clock,
    cancelled: CancelRunResult,
    r: Result<(), ManagementError>,
)
    requires
        stop_followed(
            before,
            after,
            clock,
            Ok::<CancelRunResult, CancelRunError>(cancelled),
            r,
        ),
        r is Ok,
    ensures
        !(cancelled is CommittedBeforeSpawn) ==> after == before,
        cancelled matches CancelRunResult::CommittedBeforeSpawn(run) ==> exists|
            token: ClaimToken,
            now: UtcTimestamp,
            done: Run,
        |
            {
                &&& #[trigger] end_recorded(
                    before,
                    after,
                    run@.id,
                    token,
                    now,
                    OutcomeModel::Cancelled("cancelled before command start"@),
                    Ok::<Run, StoreError>(done),
                )
                &&& token@ == run@.claim_token
            },
{
    if let CancelRunResult::CommittedBeforeSpawn(run) = cancelled {
        let told = choose|told: Result<UtcTimestamp, ManagementError>|
            {
                &&& #[trigger] now_read(clock, told)
                &&& told matches Ok(now) && exists|token: ClaimToken, done: Result<Run, StoreError>|
                    {
                        &&& token@ == run@.claim_token
                        &&& #[trigger] end_recorded(
                            before,
                            after,
                            run@.id,
                            token,
                            now,
                            OutcomeModel::Cancelled("cancelled before command start"@),
                            done,
                        )
                        &&& done is Ok
                    }
            };
        let now = told->Ok_0;
        let (token, done) = choose|token: ClaimToken, done: Result<Run, StoreError>|
            {
                &&& token@ == run@.claim_token
                &&& #[trigger] end_recorded(
                    before,
                    after,
                    run@.id,
                    token,
                    now,
                    OutcomeModel::Cancelled("cancelled before command start"@),
                    done,
                )
                &&& done is Ok
            };
        assert(done == Ok::<Run, StoreError>(done->Ok_0));
    }
}

/// Asking a run to stop follows what came of recording the request, under the claim of the run.
pub proof fn lemma_stopping_follows_the_request<
    D: Database,
    Clock: WallClock,
    Canceller: ProcessGroupCanceller,
>(
    before: JobStore<D>,
    after: JobStore<D>,
    clock: &Clock,
    canceller_before: Canceller,
    canceller_after: Canceller,
    run: &Run,
    r: Result<(), ManagementError>,
)
    requires
        exists|store: &mut JobStore<D>, canceller: &mut Canceller|
            {
                &&& #[trigger] call_ensures(
                    ask_to_stop::<D, Clock, Canceller>,
                    (store, clock, canceller, run),
                    r,
                )
                &&& *store == before
                &&& *final(store) == after
                &&& *canceller == canceller_before
                &&& *final(canceller) == canceller_after
            },
    ensures
        exists|token: ClaimToken, answers: CancelAnswers, requested: JobStore<D>|
            {
                &&& token@ == run@.claim_token
                &&& #[trigger] request_recorded(before, requested, run@.id, token, answers)
                &&& run_found(before, run@.id, answers.found)
                &&& stop_followed(
                    requested,
                    after,
                    *clock,
                    cancelled_as(token, answers),
                    r,
                )
                &&& canceller_after != canceller_before ==> {
                    &&& answers.found matches Ok(Some(found)) && found@.claim_token == token@
                        && !ended(found@.state)
                    &&& answers.committed matches Ok(asked) && asked@.command_identity is Some
                }
            },
{
}

} // verus!
