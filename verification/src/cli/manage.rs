//! Commands on saved jobs.
use vstd::prelude::*;

use super::args::ManagementCommand;
use super::cancel::{
    cancel_job, cancelled_enough, job_cancelled, time_told, CancelSteps, RunStopper,
};
use super::error::{
    management_cli_error, output_cli_error, reports_management, reports_output, CliError,
};
use super::view::{live_processes, processes_seen, ProcessView};
use crate::application::clock::{clock_error_message, ClockError, WallClock};
use crate::application::history::{
    output_read, read_run_output, run_output_message, valid_output_prefix, LogFiles, RunOutput,
    RunOutputError,
};
use crate::application::list::{
    job_named, jobs_listed, list_jobs, list_runs, management_message, only_completed_runs,
    remove_job, removed_as, removes, rerun_as, rerun_job, reruns, resolve_job, runs_listed,
    valid_limit, valid_prefix, ChangeAnswers, ManagementError, ManagementStore,
    ManagementStoreError,
};
use crate::application::submit::{SupervisorAckError, SupervisorAcknowledger};
use crate::domain::duration::{
    duration_error_message, duration_of_text, DurationError, DurationSeconds,
};
use crate::domain::id::JobId;
use crate::domain::job::Job;
use crate::domain::primitives::UtcTimestamp;
use crate::domain::run::Run;
use crate::domain::state::JobState;
use crate::infrastructure::process::{
    process_error_message, NativeProcessInspector, ProcessError, ProcessTable,
};
use crate::infrastructure::sqlite::database::StoreError;
use crate::infrastructure::sqlite::job_store::JobStore;
use crate::infrastructure::sqlite::management::{
    active_runs_found, hide_outcome, managed, requeue_outcome, HideAnswers, RequeueAnswers,
};
use crate::infrastructure::sqlite::names::{decode_job_state, job_state_named};
use crate::infrastructure::sqlite::tables::Database;
use crate::infrastructure::sqlite::transaction::Transaction;

verus! {

// ---------------------------------------------------------------------------------------------
// Commands
// ---------------------------------------------------------------------------------------------
/// The job state with a name.
pub fn parse_job_state(value: &str) -> (r: Result<JobState, &'static str>)
    ensures
        match job_state_named(value@) {
            Some(state) => r == Ok::<JobState, &'static str>(state),
            None => r == Err::<JobState, &'static str>("unknown job state"),
        },
{
    match decode_job_state(value) {
        Some(state) => Ok(state),
        None => Err("unknown job state"),
    }
}

/// What a command has to show.
pub enum ManageOutcome {
    Jobs(Vec<Job>),
    Job(Job),
    Runs(Vec<Run>),
    Output(RunOutput),
    Processes(Vec<ProcessView>),
    Nothing,
}

/// The command only reads.
pub open spec fn only_reads(command: ManagementCommand) -> bool {
    !(command is Cancel || command is Remove || command is Run)
}

/// The command shows this kind of outcome.
pub open spec fn shows(command: ManagementCommand, outcome: ManageOutcome) -> bool {
    match command {
        ManagementCommand::List { .. } => outcome is Jobs,
        ManagementCommand::Show { .. } => outcome is Job,
        ManagementCommand::Cancel { .. } => outcome matches ManageOutcome::Job(job)
            && cancelled_enough(job@.state),
        ManagementCommand::Remove { .. } => outcome is Job,
        ManagementCommand::Run { .. } => outcome is Job,
        ManagementCommand::Ps => outcome is Processes,
        ManagementCommand::History { limit, .. } => outcome matches ManageOutcome::Runs(runs)
            && only_completed_runs(runs@, None, limit),
        ManagementCommand::Output { .. } => outcome is Output,
        _ => outcome is Nothing,
    }
}

/// The exit status and the message with which a cancellation is refused for what it says.
pub open spec fn cancel_refusal(prefix: Seq<char>, grace: Option<String>) -> Option<
    (u8, Seq<char>),
> {
    if grace matches Some(text) && duration_of_text(text@) is Err {
        Some((2u8, duration_error_message(duration_of_text(grace->0@)->Err_0)))
    } else if !valid_prefix(prefix) {
        Some((3u8, management_message(ManagementError::InvalidPrefix)))
    } else {
        None
    }
}

/// The exit status and the message with which a command is refused for what it says, before the
/// store is asked.
pub open spec fn refusal(command: ManagementCommand) -> Option<(u8, Seq<char>)> {
    let unknown_prefix = (3u8, management_message(ManagementError::InvalidPrefix));
    let wrong_limit = (2u8, management_message(ManagementError::InvalidLimit));
    match command {
        ManagementCommand::List { state: Some(name), limit } => if job_state_named(name@) is None {
            Some((2u8, "unknown job state"@))
        } else if !valid_limit(limit) {
            Some(wrong_limit)
        } else {
            None
        },
        ManagementCommand::List { state: None, limit } => if !valid_limit(limit) {
            Some(wrong_limit)
        } else {
            None
        },
        ManagementCommand::Show { job } => if !valid_prefix(job@) {
            Some(unknown_prefix)
        } else {
            None
        },
        ManagementCommand::History { job: Some(job), .. } => if !valid_prefix(job@) {
            Some(unknown_prefix)
        } else {
            None
        },
        ManagementCommand::History { job: None, limit } => if !valid_limit(limit) {
            Some(wrong_limit)
        } else {
            None
        },
        ManagementCommand::Output { run } => if !valid_output_prefix(run@) {
            Some((3u8, run_output_message(RunOutputError::InvalidPrefix)))
        } else {
            None
        },
        ManagementCommand::Cancel { job, grace } => cancel_refusal(job@, grace),
        ManagementCommand::Remove { job, .. } => if !valid_prefix(job@) {
            Some(unknown_prefix)
        } else {
            None
        },
        _ => None,
    }
}

/// The time for which a run may end by itself: what was asked for, or the default.
pub fn chosen_grace(grace: &Option<String>, default_grace: DurationSeconds) -> (r: Result<
    DurationSeconds,
    String,
>)
    ensures
        match *grace {
            None => r == Ok::<DurationSeconds, String>(default_grace),
            Some(text) => match duration_of_text(text@) {
                Ok(seconds) => r matches Ok(chosen) && chosen@ == seconds,
                Err(error) => r matches Err(message) && message@ == duration_error_message(error),
            },
        },
{
    match grace {
        None => Ok(default_grace),
        Some(text) => match DurationSeconds::from_str(text.as_str()) {
            Ok(chosen) => Ok(chosen),
            Err(error) => Err(error.to_string()),
        },
    }
}

/// The state that jobs are listed in, where one is asked for.
pub fn chosen_state(state: &Option<String>) -> (r: Result<Option<JobState>, String>)
    ensures
        match *state {
            None => r == Ok::<Option<JobState>, String>(None),
            Some(text) => match job_state_named(text@) {
                Some(named) => r == Ok::<Option<JobState>, String>(Some(named)),
                None => r matches Err(message) && message@ == "unknown job state"@,
            },
        },
{
    match state {
        None => Ok(None),
        Some(text) => match parse_job_state(text.as_str()) {
            Ok(named) => Ok(Some(named)),
            Err(error) => Err(error.to_owned()),
        },
    }
}

/// What a command on saved jobs uses of the machine.
pub struct ManageTools<Clock, Stopper, Logs, Table> {
    pub clock: Clock,
    pub stopper: Stopper,
    pub logs: Logs,
    pub inspector: Result<NativeProcessInspector<Table>, String>,
}

/// The result is the failure of a management error.
pub open spec fn failed_with(
    r: Result<ManageOutcome, CliError>,
    json: bool,
    error: ManagementError,
) -> bool {
    r matches Err(failure) && reports_management(error, json, failure)
}

/// The result is a failure with the exit status, the code and the message.
pub open spec fn failed_as(
    r: Result<ManageOutcome, CliError>,
    json: bool,
    exit: u8,
    code: Seq<char>,
    message: Seq<char>,
) -> bool {
    r matches Err(failure) && failure.is(exit, code) && failure.message@ == message && failure.json
        == json
}

/// The result is the job, or the failure.
pub open spec fn shows_job(
    outcome: Result<Job, ManagementError>,
    json: bool,
    r: Result<ManageOutcome, CliError>,
) -> bool {
    match outcome {
        Ok(job) => r == Ok::<ManageOutcome, CliError>(ManageOutcome::Job(job)),
        Err(error) => failed_with(r, json, error),
    }
}

/// The state that jobs are listed in, where one is asked for.
pub open spec fn wanted_state(state: Option<String>) -> Option<JobState> {
    match state {
        Some(name) => job_state_named(name@),
        None => None,
    }
}

/// The result is what listing jobs shows.
pub open spec fn list_shown<D: Database>(
    store: JobStore<D>,
    state: Option<String>,
    limit: usize,
    json: bool,
    r: Result<ManageOutcome, CliError>,
) -> bool {
    if state matches Some(name) && job_state_named(name@) is None {
        failed_as(r, json, 2, "INVALID_ARGUMENT"@, "unknown job state"@)
    } else {
        exists|listed: Result<Vec<Job>, ManagementError>|
            {
                &&& #[trigger] jobs_listed(store, wanted_state(state), None, limit, listed)
                &&& match listed {
                    Ok(jobs) => r == Ok::<ManageOutcome, CliError>(ManageOutcome::Jobs(jobs)),
                    Err(error) => failed_with(r, json, error),
                }
            }
    }
}

/// The result is what the history of a job, or of all jobs, shows.
pub open spec fn runs_shown<D: Database>(
    store: JobStore<D>,
    job_id: Option<JobId>,
    limit: usize,
    json: bool,
    r: Result<ManageOutcome, CliError>,
) -> bool {
    exists|listed: Result<Vec<Run>, ManagementError>|
        {
            &&& #[trigger] runs_listed(store, job_id, limit, listed)
            &&& match listed {
                Ok(runs) => {
                    &&& only_completed_runs(runs@, job_id, limit)
                    &&& r == Ok::<ManageOutcome, CliError>(ManageOutcome::Runs(runs))
                },
                Err(error) => failed_with(r, json, error),
            }
        }
}

/// The result is what the live processes of the active runs show.
pub open spec fn processes_shown<D: Database, Table: ProcessTable>(
    store: JobStore<D>,
    inspector: Result<NativeProcessInspector<Table>, String>,
    json: bool,
    r: Result<ManageOutcome, CliError>,
) -> bool {
    exists|active: Result<Vec<Run>, ManagementStoreError>|
        {
            &&& #[trigger] active_runs_found(store, active)
            &&& match active {
                Err(error) => failed_with(r, json, ManagementError::Store(error)),
                Ok(runs) => match inspector {
                    Err(detail) => failed_as(r, json, 70, "INTERNAL_ERROR"@, detail@),
                    Ok(inspector) => exists|seen: Result<Vec<ProcessView>, ProcessError>|
                        {
                            &&& #[trigger] processes_seen(inspector, runs@, seen)
                            &&& match seen {
                                Ok(processes) => r == Ok::<ManageOutcome, CliError>(
                                    ManageOutcome::Processes(processes),
                                ),
                                Err(error) => failed_as(
                                    r,
                                    json,
                                    70,
                                    "INTERNAL_ERROR"@,
                                    process_error_message(error),
                                ),
                            }
                        },
                },
            }
        }
}

/// The job was hidden at its revision, with this answer.
pub open spec fn job_hidden<D: Database>(
    before: JobStore<D>,
    after: JobStore<D>,
    job: Job,
    keep_history: bool,
    changed: Result<Job, ManagementStoreError>,
) -> bool {
    exists|
        transaction: Transaction<D, Job>,
        answers: HideAnswers,
        stored: Result<Job, StoreError>,
    |
        {
            &&& #[trigger] hide_outcome(
                before,
                after,
                job@.id,
                job@.revision,
                keep_history,
                transaction,
                answers,
                stored,
            )
            &&& managed(stored, changed)
        }
}

/// The job was made to wait again at its revision, with this answer.
pub open spec fn job_requeued<D: Database>(
    before: JobStore<D>,
    after: JobStore<D>,
    job: Job,
    now: UtcTimestamp,
    changed: Result<Job, ManagementStoreError>,
) -> bool {
    exists|
        transaction: Transaction<D, ()>,
        answers: RequeueAnswers,
        done: Result<(), StoreError>,
        stored: Result<Job, StoreError>,
    |
        {
            &&& #[trigger] requeue_outcome(
                before,
                after,
                job@.id,
                job@.revision,
                now,
                transaction,
                answers,
                done,
                stored,
            )
            &&& managed(stored, changed)
        }
}

/// The result is what removing the job gives that a prefix names.
pub open spec fn job_removed<D: Database>(
    before: JobStore<D>,
    after: JobStore<D>,
    prefix: Seq<char>,
    keep_history: bool,
    r: Result<Job, ManagementError>,
) -> bool {
    exists|answers: ChangeAnswers|
        {
            &&& r == #[trigger] removed_as(answers)
            &&& job_named(before, prefix, answers.named)
            &&& if removes(answers) {
                job_hidden(before, after, answers.named->Ok_0, keep_history, answers.changed)
            } else {
                after == before
            }
        }
}

/// The result is what running the job again gives that a prefix names.
pub open spec fn job_rerun<D: Database>(
    before: JobStore<D>,
    after: JobStore<D>,
    prefix: Seq<char>,
    confirmed: bool,
    now: UtcTimestamp,
    r: Result<Job, ManagementError>,
) -> bool {
    exists|answers: ChangeAnswers|
        {
            &&& r == #[trigger] rerun_as(confirmed, answers)
            &&& job_named(before, prefix, answers.named)
            &&& if reruns(confirmed, answers) {
                job_requeued(before, after, answers.named->Ok_0, now, answers.changed)
            } else {
                after == before
            }
        }
}

/// The result is what removing a job shows.
pub open spec fn removal_shown<D: Database>(
    before: JobStore<D>,
    after: JobStore<D>,
    prefix: Seq<char>,
    keep_history: bool,
    json: bool,
    r: Result<ManageOutcome, CliError>,
) -> bool {
    exists|removed: Result<Job, ManagementError>|
        {
            &&& #[trigger] job_removed(before, after, prefix, keep_history, removed)
            &&& shows_job(removed, json, r)
        }
}

/// The result is what running a job again shows: a job that waits again is handed to the
/// supervisor.
pub open spec fn rerun_shown(
    rerun: Result<Job, ManagementError>,
    answer: Result<(), SupervisorAckError>,
    json: bool,
    r: Result<ManageOutcome, CliError>,
) -> bool {
    match rerun {
        Err(error) => failed_with(r, json, error),
        Ok(job) => match answer {
            Ok(_) => r == Ok::<ManageOutcome, CliError>(ManageOutcome::Job(job)),
            Err(error) => failed_as(
                r,
                json,
                11,
                "SUPERVISION_ERROR"@,
                "supervisor did not acknowledge job: "@ + error.0@,
            ),
        },
    }
}

/// The time for which a run may end by itself: what was asked for, or the default.
pub open spec fn grace_asked(
    asked: Option<String>,
    default_grace: DurationSeconds,
    grace: DurationSeconds,
) -> bool {
    match asked {
        Some(text) => duration_of_text(text@) == Ok::<u64, DurationError>(grace@),
        None => grace == default_grace,
    }
}

/// What came back while a command is carried out: the steps of a cancellation, with the store after
/// it; and the job that was run again, where one was, with the answer of the supervisor.
pub struct ManageSteps<D> {
    pub cancel: CancelSteps<D>,
    pub cancelled: JobStore<D>,
    pub acknowledged: Option<(Job, Result<(), SupervisorAckError>)>,
}

/// The result is what a command that only reads shows, or its failure.
pub open spec fn reading_shown<D: Database, Logs: LogFiles, Table: ProcessTable>(
    store: JobStore<D>,
    logs: Logs,
    inspector: Result<NativeProcessInspector<Table>, String>,
    command: ManagementCommand,
    state_directory: Seq<char>,
    json: bool,
    r: Result<ManageOutcome, CliError>,
) -> bool {
    match command {
        ManagementCommand::List { state, limit } => list_shown(store, state, limit, json, r),
        ManagementCommand::Show { job } => exists|named: Result<Job, ManagementError>|
            #[trigger] job_named(store, job@, named) && shows_job(named, json, r),
        ManagementCommand::History { job: None, limit } => runs_shown(store, None, limit, json, r),
        ManagementCommand::History { job: Some(prefix), limit } => exists|
            named: Result<Job, ManagementError>,
        |
            {
                &&& #[trigger] job_named(store, prefix@, named)
                &&& match named {
                    Ok(job) => runs_shown(store, Some(job@.id), limit, json, r),
                    Err(error) => failed_with(r, json, error),
                }
            },
        ManagementCommand::Output { run } => exists|read: Result<RunOutput, RunOutputError>|
            {
                &&& #[trigger] output_read(store, logs, state_directory, run@, read)
                &&& match read {
                    Ok(output) => r == Ok::<ManageOutcome, CliError>(ManageOutcome::Output(output)),
                    Err(error) => r matches Err(failure) && reports_output(error, json, failure),
                }
            },
        ManagementCommand::Ps => processes_shown(store, inspector, json, r),
        _ => r == Ok::<ManageOutcome, CliError>(ManageOutcome::Nothing),
    }
}

/// The result is what cancelling a job shows.
pub open spec fn cancel_shown<D: Database, Clock: WallClock>(
    before: JobStore<D>,
    after: JobStore<D>,
    clock: Clock,
    prefix: Seq<char>,
    grace: Option<String>,
    default_grace: DurationSeconds,
    steps: CancelSteps<D>,
    json: bool,
    r: Result<ManageOutcome, CliError>,
) -> bool {
    if grace matches Some(text) && duration_of_text(text@) is Err {
        &&& after == before && steps.stopped is None
        &&& failed_as(
            r,
            json,
            2,
            "INVALID_ARGUMENT"@,
            duration_error_message(duration_of_text(grace->0@)->Err_0),
        )
    } else {
        exists|chosen: DurationSeconds, cancelled: Result<Job, ManagementError>|
            {
                &&& grace_asked(grace, default_grace, chosen)
                &&& #[trigger] job_cancelled(
                    before,
                    after,
                    clock,
                    prefix,
                    chosen,
                    steps,
                    cancelled,
                )
                &&& shows_job(cancelled, json, r)
            }
    }
}

/// The result is what removing a job shows that is cancelled first, which leads to the store
/// `cancelled`.
pub open spec fn cancelled_removal_shown<D: Database, Clock: WallClock>(
    before: JobStore<D>,
    after: JobStore<D>,
    clock: Clock,
    prefix: Seq<char>,
    keep_history: bool,
    default_grace: DurationSeconds,
    cancelled: JobStore<D>,
    steps: CancelSteps<D>,
    json: bool,
    r: Result<ManageOutcome, CliError>,
) -> bool {
    exists|outcome: Result<Job, ManagementError>|
        {
            &&& #[trigger] job_cancelled(
                before,
                cancelled,
                clock,
                prefix,
                default_grace,
                steps,
                outcome,
            )
            &&& match outcome {
                Err(error) => after == cancelled && failed_with(r, json, error),
                Ok(_) => removal_shown(cancelled, after, prefix, keep_history, json, r),
            }
        }
}

/// The result is what removing a job shows: one that is not done is cancelled first where that was
/// asked for.
pub open spec fn remove_shown<D: Database, Clock: WallClock>(
    before: JobStore<D>,
    after: JobStore<D>,
    clock: Clock,
    prefix: Seq<char>,
    cancel: bool,
    keep_history: bool,
    default_grace: DurationSeconds,
    cancelled: JobStore<D>,
    steps: CancelSteps<D>,
    json: bool,
    r: Result<ManageOutcome, CliError>,
) -> bool {
    exists|named: Result<Job, ManagementError>|
        {
            &&& #[trigger] job_named(before, prefix, named)
            &&& match named {
                Err(error) => {
                    &&& after == before && steps.stopped is None
                    &&& failed_with(r, json, error)
                },
                Ok(found) => if found@.state.terminal() || !cancel {
                    &&& steps.stopped is None
                    &&& removal_shown(before, after, prefix, keep_history, json, r)
                } else {
                    cancelled_removal_shown(
                        before,
                        after,
                        clock,
                        prefix,
                        keep_history,
                        default_grace,
                        cancelled,
                        steps,
                        json,
                        r,
                    )
                },
            }
        }
}

/// The result is what running a job again shows: the time is asked for, the job is made to wait
/// again, and only then is it handed to the supervisor.
pub open spec fn run_shown<D: Database, Clock: WallClock>(
    before: JobStore<D>,
    after: JobStore<D>,
    clock: Clock,
    prefix: Seq<char>,
    confirmed: bool,
    acknowledged: Option<(Job, Result<(), SupervisorAckError>)>,
    json: bool,
    r: Result<ManageOutcome, CliError>,
) -> bool {
    exists|told: Result<UtcTimestamp, ClockError>|
        {
            &&& #[trigger] time_told(clock, told)
            &&& match told {
                Err(error) => {
                    &&& after == before && acknowledged is None
                    &&& failed_as(r, json, 70, "INTERNAL_ERROR"@, clock_error_message(error))
                },
                Ok(now) => exists|rerun: Result<Job, ManagementError>|
                    {
                        &&& #[trigger] job_rerun(before, after, prefix, confirmed, now, rerun)
                        &&& match rerun {
                            Err(error) => acknowledged is None && failed_with(r, json, error),
                            Ok(again) => acknowledged matches Some((handed, answer)) && handed
                                == again && rerun_shown(rerun, answer, json, r),
                        }
                    },
            }
        }
}

/// The result is what a command on saved jobs shows, or its failure. It leads from one store to the
/// other.
pub open spec fn command_shown<D: Database, Clock: WallClock, Logs: LogFiles, Table: ProcessTable>(
    before: JobStore<D>,
    after: JobStore<D>,
    clock: Clock,
    logs: Logs,
    inspector: Result<NativeProcessInspector<Table>, String>,
    command: ManagementCommand,
    state_directory: Seq<char>,
    default_grace: DurationSeconds,
    json: bool,
    steps: ManageSteps<D>,
    r: Result<ManageOutcome, CliError>,
) -> bool {
    match command {
        ManagementCommand::Cancel { job, grace } => {
            &&& steps.acknowledged is None
            &&& cancel_shown(
                before,
                after,
                clock,
                job@,
                grace,
                default_grace,
                steps.cancel,
                json,
                r,
            )
        },
        ManagementCommand::Remove { job, cancel, keep_history } => {
            &&& steps.acknowledged is None
            &&& remove_shown(
                before,
                after,
                clock,
                job@,
                cancel,
                keep_history,
                default_grace,
                steps.cancelled,
                steps.cancel,
                json,
                r,
            )
        },
        ManagementCommand::Run { job, yes } => {
            &&& steps.cancel.stopped is None
            &&& run_shown(before, after, clock, job@, yes, steps.acknowledged, json, r)
        },
        _ => {
            &&& steps.acknowledged is None && steps.cancel.stopped is None
            &&& after == before
            &&& reading_shown(before, logs, inspector, command, state_directory, json, r)
        },
    }
}

/// The result is of the kind that the command shows, and a refusal is reported as it should.
pub open spec fn fits(
    command: ManagementCommand,
    json: bool,
    r: Result<ManageOutcome, CliError>,
) -> bool {
    &&& match r {
        Ok(outcome) => shows(command, outcome),
        Err(error) => error.json == json,
    }
    &&& refusal(command) matches Some((exit, message)) ==> (r matches Err(error) && error.exit
        == exit && error.message@ == message)
}

fn show<D: Database, Clock, Stopper, Logs: LogFiles, Table: ProcessTable>(
    store: &JobStore<D>,
    tools: &ManageTools<Clock, Stopper, Logs, Table>,
    command: &ManagementCommand,
    state_directory: &str,
    json: bool,
) -> (r: Result<ManageOutcome, CliError>)
    requires
        only_reads(*command),
    ensures
        reading_shown(
            *store,
            tools.logs,
            tools.inspector,
            *command,
            state_directory@,
            json,
            r,
        ),
        fits(*command, json, r),
{
    match command {
        ManagementCommand::List { state, limit } => {
            let wanted: Option<JobState> = match chosen_state(state) {
                Ok(wanted) => wanted,
                Err(message) => {
                    return Err(CliError::usage(json, message));
                },
            };
            let listed: Result<Vec<Job>, ManagementError> = list_jobs(store, wanted, None, *limit);
            assert(jobs_listed(*store, wanted, None, *limit, listed));
            match listed {
                Ok(jobs) => Ok(ManageOutcome::Jobs(jobs)),
                Err(error) => Err(management_cli_error(json, error)),
            }
        },
        ManagementCommand::Show { job } => {
            let named: Result<Job, ManagementError> = resolve_job(store, job.as_str());
            assert(job_named(*store, job@, named));
            match named {
                Ok(found) => Ok(ManageOutcome::Job(found)),
                Err(error) => Err(management_cli_error(json, error)),
            }
        },
        ManagementCommand::History { job, limit } => {
            let job_id: Option<JobId> = match job {
                Some(prefix) => {
                    let named: Result<Job, ManagementError> = resolve_job(store, prefix.as_str());
                    assert(job_named(*store, prefix@, named));
                    match named {
                        Ok(found) => Some(found.id()),
                        Err(error) => {
                            return Err(management_cli_error(json, error));
                        },
                    }
                },
                None => None,
            };
            let listed: Result<Vec<Run>, ManagementError> = list_runs(store, job_id, *limit);
            assert(runs_listed(*store, job_id, *limit, listed));
            let r: Result<ManageOutcome, CliError> = match listed {
                Ok(runs) => Ok(ManageOutcome::Runs(runs)),
                Err(error) => Err(management_cli_error(json, error)),
            };
            assert(runs_shown(*store, job_id, *limit, json, r));
            r
        },
        ManagementCommand::Output { run } => {
            let read: Result<RunOutput, RunOutputError> = read_run_output(
                store,
                &tools.logs,
                state_directory,
                run.as_str(),
            );
            assert(output_read(*store, tools.logs, state_directory@, run@, read));
            match read {
                Ok(output) => Ok(ManageOutcome::Output(output)),
                Err(error) => Err(output_cli_error(json, error)),
            }
        },
        ManagementCommand::Ps => {
            let active: Result<Vec<Run>, ManagementStoreError> = store.active_runs();
            assert(active_runs_found(*store, active));
            let runs: Vec<Run> = match active {
                Ok(runs) => runs,
                Err(error) => {
                    return Err(management_cli_error(json, ManagementError::Store(error)));
                },
            };
            match &tools.inspector {
                Ok(inspector) => {
                    let seen: Result<Vec<ProcessView>, ProcessError> = live_processes(
                        inspector,
                        &runs,
                    );
                    assert(processes_seen(*inspector, runs@, seen));
                    match seen {
                        Ok(processes) => Ok(ManageOutcome::Processes(processes)),
                        Err(error) => Err(CliError::internal(json, error.to_string())),
                    }
                },
                Err(detail) => Err(CliError::internal(json, detail.as_str().to_owned())),
            }
        },
        _ => Ok(ManageOutcome::Nothing),
    }
}

/// Removes the job of the store that a prefix names.
fn remove_stored_job<D: Database>(store: &mut JobStore<D>, prefix: &str, keep_history: bool) -> (r:
    Result<Job, ManagementError>)
    ensures
        job_removed(*old(store), *final(store), prefix@, keep_history, r),
{
    remove_job(store, prefix, keep_history)
}

/// Runs the job of the store again that a prefix names.
fn rerun_stored_job<D: Database>(
    store: &mut JobStore<D>,
    prefix: &str,
    confirmed: bool,
    now: UtcTimestamp,
) -> (r: Result<Job, ManagementError>)
    ensures
        job_rerun(*old(store), *final(store), prefix@, confirmed, now, r),
{
    rerun_job(store, prefix, confirmed, now)
}

fn show_job(json: bool, outcome: Result<Job, ManagementError>) -> (r: Result<
    ManageOutcome,
    CliError,
>)
    ensures
        shows_job(outcome, json, r),
{
    match outcome {
        Ok(job) => Ok(ManageOutcome::Job(job)),
        Err(error) => Err(management_cli_error(json, error)),
    }
}

/// Removes a job, after cancelling it where that is called for.
fn show_removal<D: Database, Clock: WallClock, Stopper: RunStopper<D>>(
    store: &mut JobStore<D>,
    clock: &Clock,
    stopper: &Stopper,
    prefix: &str,
    cancel: bool,
    keep_history: bool,
    default_grace: DurationSeconds,
    json: bool,
) -> (r: Result<ManageOutcome, CliError>)
    ensures
        exists|cancelled: JobStore<D>, steps: CancelSteps<D>|
            {
                &&& #[trigger] remove_shown(
                    *old(store),
                    *final(store),
                    *clock,
                    prefix@,
                    cancel,
                    keep_history,
                    default_grace,
                    cancelled,
                    steps,
                    json,
                    r,
                )
                &&& steps.stopped matches Some((run, ended)) ==> exists|at: &mut JobStore<D>|
                    {
                        &&& #[trigger] call_ensures(
                            Stopper::cancel_active_run,
                            (stopper, at, &run, steps.grace),
                            ended,
                        )
                        &&& *at == steps.asked
                        &&& *final(at) == steps.left
                    }
            },
        r matches Ok(outcome) ==> outcome is Job,
        r matches Err(error) ==> error.json == json,
        !valid_prefix(prefix@) ==> {
            &&& *final(store) == *old(store)
            &&& r matches Err(error) && error.exit == 3 && error.message@ == management_message(
                ManagementError::InvalidPrefix,
            )
        },
{
    let ghost before = *store;
    let ghost mut unused: CancelSteps<D> = arbitrary();
    proof {
        unused.stopped = None;
    }
    let named: Result<Job, ManagementError> = resolve_job(store, prefix);
    assert(job_named(before, prefix@, named));
    let current: Job = match named {
        Ok(current) => current,
        Err(error) => {
            let r: Result<ManageOutcome, CliError> = Err(management_cli_error(json, error));
            assert(remove_shown(
                before,
                *store,
                *clock,
                prefix@,
                cancel,
                keep_history,
                default_grace,
                before,
                unused,
                json,
                r,
            ));
            return r;
        },
    };
    if current.state().is_terminal() || !cancel {
        let removed: Result<Job, ManagementError> = remove_stored_job(store, prefix, keep_history);
        assert(job_removed(before, *store, prefix@, keep_history, removed));
        let r: Result<ManageOutcome, CliError> = show_job(json, removed);
        assert(removal_shown(before, *store, prefix@, keep_history, json, r));
        assert(remove_shown(
            before,
            *store,
            *clock,
            prefix@,
            cancel,
            keep_history,
            default_grace,
            before,
            unused,
            json,
            r,
        ));
        return r;
    }
    let outcome: Result<Job, ManagementError> = cancel_job(
        store,
        clock,
        stopper,
        prefix,
        default_grace,
    );
    let ghost cancelled = *store;
    let ghost answer = outcome;
    let r: Result<ManageOutcome, CliError> = match outcome {
        Ok(_) => {
            let removed: Result<Job, ManagementError> = remove_stored_job(
                store,
                prefix,
                keep_history,
            );
            assert(job_removed(cancelled, *store, prefix@, keep_history, removed));
            let r: Result<ManageOutcome, CliError> = show_job(json, removed);
            assert(removal_shown(cancelled, *store, prefix@, keep_history, json, r));
            r
        },
        Err(error) => Err(management_cli_error(json, error)),
    };
    proof {
        assert forall|steps: CancelSteps<D>| #[trigger]
            job_cancelled(
                before,
                cancelled,
                *clock,
                prefix@,
                default_grace,
                steps,
                answer,
            ) implies remove_shown(
            before,
            *store,
            *clock,
            prefix@,
            cancel,
            keep_history,
            default_grace,
            cancelled,
            steps,
            json,
            r,
        ) by {
            assert(cancelled_removal_shown(
                before,
                *store,
                *clock,
                prefix@,
                keep_history,
                default_grace,
                cancelled,
                steps,
                json,
                r,
            ));
        }
    }
    r
}

/// Runs a job again and hands it to the supervisor.
fn show_rerun<D: Database, Clock: WallClock, Acknowledger: SupervisorAcknowledger>(
    store: &mut JobStore<D>,
    clock: &Clock,
    acknowledger: &mut Acknowledger,
    prefix: &str,
    confirmed: bool,
    json: bool,
) -> (r: Result<ManageOutcome, CliError>)
    ensures
        exists|acknowledged: Option<(Job, Result<(), SupervisorAckError>)>|
            {
                &&& #[trigger] run_shown(
                    *old(store),
                    *final(store),
                    *clock,
                    prefix@,
                    confirmed,
                    acknowledged,
                    json,
                    r,
                )
                &&& match acknowledged {
                    None => *final(acknowledger) == *old(acknowledger),
                    Some((job, answer)) => exists|to: &mut Acknowledger|
                        {
                            &&& #[trigger] call_ensures(
                                Acknowledger::acknowledge,
                                (to, job@.id, job@.revision),
                                answer,
                            )
                            &&& *to == *old(acknowledger)
                            &&& *final(to) == *final(acknowledger)
                        },
                }
            },
        r matches Ok(outcome) ==> outcome is Job,
        r matches Err(error) ==> error.json == json,
        !valid_prefix(prefix@) ==> r is Err && *final(store) == *old(store),
{
    let ghost before = *store;
    let told: Result<UtcTimestamp, ClockError> = clock.now_utc();
    assert(time_told(*clock, told));
    let now: UtcTimestamp = match told {
        Ok(now) => now,
        Err(error) => {
            let r: Result<ManageOutcome, CliError> = Err(
                CliError::internal(json, error.to_string()),
            );
            assert(run_shown(before, *store, *clock, prefix@, confirmed, None, json, r));
            return r;
        },
    };
    let rerun: Result<Job, ManagementError> = rerun_stored_job(store, prefix, confirmed, now);
    assert(job_rerun(before, *store, prefix@, confirmed, now, rerun));
    let ghost outcome = rerun;
    let again: Job = match rerun {
        Ok(again) => again,
        Err(error) => {
            let r: Result<ManageOutcome, CliError> = Err(management_cli_error(json, error));
            assert(run_shown(before, *store, *clock, prefix@, confirmed, None, json, r));
            return r;
        },
    };
    let answer: Result<(), SupervisorAckError> = acknowledger.acknowledge(
        again.id(),
        again.revision(),
    );
    let ghost acknowledged = Some((again, answer));
    let ghost reply = answer;
    let r: Result<ManageOutcome, CliError> = match answer {
        Ok(_) => Ok(ManageOutcome::Job(again)),
        Err(error) => Err(CliError::supervision(json, error.to_string())),
    };
    assert(rerun_shown(outcome, reply, json, r));
    assert(run_shown(before, *store, *clock, prefix@, confirmed, acknowledged, json, r));
    r
}

/// Cancels a job, with the time for its run that was asked for.
fn show_cancellation<D: Database, Clock: WallClock, Stopper: RunStopper<D>>(
    store: &mut JobStore<D>,
    clock: &Clock,
    stopper: &Stopper,
    prefix: &str,
    grace: &Option<String>,
    default_grace: DurationSeconds,
    json: bool,
) -> (r: Result<ManageOutcome, CliError>)
    ensures
        exists|steps: CancelSteps<D>|
            {
                &&& #[trigger] cancel_shown(
                    *old(store),
                    *final(store),
                    *clock,
                    prefix@,
                    *grace,
                    default_grace,
                    steps,
                    json,
                    r,
                )
                &&& steps.stopped matches Some((run, ended)) ==> exists|at: &mut JobStore<D>|
                    {
                        &&& #[trigger] call_ensures(
                            Stopper::cancel_active_run,
                            (stopper, at, &run, steps.grace),
                            ended,
                        )
                        &&& *at == steps.asked
                        &&& *final(at) == steps.left
                    }
            },
        r matches Ok(outcome) ==> outcome matches ManageOutcome::Job(job) && cancelled_enough(
            job@.state,
        ),
        r matches Err(error) ==> error.json == json,
        cancel_refusal(prefix@, *grace) matches Some((exit, message)) ==> {
            &&& *final(store) == *old(store)
            &&& r matches Err(error) && error.exit == exit && error.message@ == message
        },
{
    let ghost before = *store;
    let chosen: DurationSeconds = match chosen_grace(grace, default_grace) {
        Ok(chosen) => chosen,
        Err(message) => {
            let ghost mut unused: CancelSteps<D> = arbitrary();
            proof {
                unused.stopped = None;
            }
            let r: Result<ManageOutcome, CliError> = Err(CliError::usage(json, message));
            assert(cancel_shown(
                before,
                *store,
                *clock,
                prefix@,
                *grace,
                default_grace,
                unused,
                json,
                r,
            ));
            return r;
        },
    };
    let outcome: Result<Job, ManagementError> = cancel_job(store, clock, stopper, prefix, chosen);
    let ghost answer = outcome;
    let r: Result<ManageOutcome, CliError> = show_job(json, outcome);
    proof {
        assert forall|steps: CancelSteps<D>| #[trigger]
            job_cancelled(
                before,
                *store,
                *clock,
                prefix@,
                chosen,
                steps,
                answer,
            ) implies cancel_shown(
            before,
            *store,
            *clock,
            prefix@,
            *grace,
            default_grace,
            steps,
            json,
            r,
        ) by {}
    }
    r
}

/// Runs a command on saved jobs. A run is stopped on the store as the request to cancel its job left
/// it, and only a job that was made to wait again is handed to the supervisor, once.
pub fn manage<
    D: Database,
    Clock: WallClock,
    Stopper: RunStopper<D>,
    Logs: LogFiles,
    Table: ProcessTable,
    Acknowledger: SupervisorAcknowledger,
>(
    store: &mut JobStore<D>,
    tools: &ManageTools<Clock, Stopper, Logs, Table>,
    acknowledger: &mut Acknowledger,
    command: &ManagementCommand,
    state_directory: &str,
    default_grace: DurationSeconds,
    json: bool,
) -> (r: Result<ManageOutcome, CliError>)
    ensures
        exists|steps: ManageSteps<D>|
            {
                &&& #[trigger] command_shown(
                    *old(store),
                    *final(store),
                    tools.clock,
                    tools.logs,
                    tools.inspector,
                    *command,
                    state_directory@,
                    default_grace,
                    json,
                    steps,
                    r,
                )
                &&& steps.cancel.stopped matches Some((run, ended)) ==> exists|
                    at: &mut JobStore<D>,
                |
                    {
                        &&& #[trigger] call_ensures(
                            Stopper::cancel_active_run,
                            (&tools.stopper, at, &run, steps.cancel.grace),
                            ended,
                        )
                        &&& *at == steps.cancel.asked
                        &&& *final(at) == steps.cancel.left
                    }
                &&& match steps.acknowledged {
                    None => *final(acknowledger) == *old(acknowledger),
                    Some((job, answer)) => exists|to: &mut Acknowledger|
                        {
                            &&& #[trigger] call_ensures(
                                Acknowledger::acknowledge,
                                (to, job@.id, job@.revision),
                                answer,
                            )
                            &&& *to == *old(acknowledger)
                            &&& *final(to) == *final(acknowledger)
                        },
                }
            },
        only_reads(*command) ==> *final(store) == *old(store),
        refusal(*command) is Some ==> *final(store) == *old(store),
        fits(*command, json, r),
        command matches ManagementCommand::Run { job, .. } ==> (!valid_prefix(job@) ==> r is Err
            && *final(store) == *old(store)),
{
    let ghost before = *store;
    let ghost mut steps: ManageSteps<D> = arbitrary();
    proof {
        steps.cancel.stopped = None;
        steps.acknowledged = None;
    }
    match command {
        ManagementCommand::Cancel { job, grace } => {
            let r: Result<ManageOutcome, CliError> = show_cancellation(
                store,
                &tools.clock,
                &tools.stopper,
                job.as_str(),
                grace,
                default_grace,
                json,
            );
            proof {
                assert forall|found: CancelSteps<D>| #[trigger]
                    cancel_shown(
                        before,
                        *store,
                        tools.clock,
                        job@,
                        *grace,
                        default_grace,
                        found,
                        json,
                        r,
                    ) implies command_shown(
                        before,
                        *store,
                        tools.clock,
                        tools.logs,
                        tools.inspector,
                        *command,
                        state_directory@,
                        default_grace,
                        json,
                        ManageSteps { cancel: found, ..steps },
                        r,
                    ) by {}
            }
            r
        },
        ManagementCommand::Remove { job, cancel, keep_history } => {
            let r: Result<ManageOutcome, CliError> = show_removal(
                store,
                &tools.clock,
                &tools.stopper,
                job.as_str(),
                *cancel,
                *keep_history,
                default_grace,
                json,
            );
            proof {
                assert forall|cancelled: JobStore<D>, found: CancelSteps<D>| #[trigger]
                    remove_shown(
                        before,
                        *store,
                        tools.clock,
                        job@,
                        *cancel,
                        *keep_history,
                        default_grace,
                        cancelled,
                        found,
                        json,
                        r,
                    ) implies command_shown(
                        before,
                        *store,
                        tools.clock,
                        tools.logs,
                        tools.inspector,
                        *command,
                        state_directory@,
                        default_grace,
                        json,
                        ManageSteps { cancel: found, cancelled, ..steps },
                        r,
                    ) by {}
            }
            r
        },
        ManagementCommand::Run { job, yes } => {
            let r: Result<ManageOutcome, CliError> = show_rerun(
                store,
                &tools.clock,
                acknowledger,
                job.as_str(),
                *yes,
                json,
            );
            proof {
                assert forall|acknowledged: Option<(Job, Result<(), SupervisorAckError>)>|
                    #[trigger] run_shown(
                        before,
                        *store,
                        tools.clock,
                        job@,
                        *yes,
                        acknowledged,
                        json,
                        r,
                    ) implies command_shown(
                        before,
                        *store,
                        tools.clock,
                        tools.logs,
                        tools.inspector,
                        *command,
                        state_directory@,
                        default_grace,
                        json,
                        ManageSteps { acknowledged, ..steps },
                        r,
                    ) by {}
            }
            r
        },
        _ => {
            let r: Result<ManageOutcome, CliError> = show(
                store,
                tools,
                command,
                state_directory,
                json,
            );
            assert(command_shown(
                before,
                *store,
                tools.clock,
                tools.logs,
                tools.inspector,
                *command,
                state_directory@,
                default_grace,
                json,
                steps,
                r,
            ));
            r
        },
    }
}

} // verus!
