//! How failures are reported, and what the program makes of a submission.
use crate::application::history::RunOutputError;
use crate::application::list::ManagementError;
use crate::application::service::ServiceStatus;
use crate::application::submit::{SubmissionOutcome, SupervisorAckError};
use crate::cli::args::{ColorArg, GlobalArgs, ScheduleOptions};
use crate::cli::cancel::{cancel_need, cancellation_target, stop_step, CancelNeed, StopStep};
use crate::cli::error::{management_cli_error, output_cli_error, remediation, CliError};
use crate::cli::submit::{
    ack_step, capture_warning, config_overrides, require_durable, schedule_step, shell_warning,
    socket_path, submission_exit, AckStep, ScheduleAction, ScheduleEvent, ScheduleState,
};
use crate::domain::run::Run;
use crate::domain::schedule::RuntimeTier;
use crate::domain::state::{JobState, RunState};
use crate::infrastructure::config::{ColorMode, ConfigOverrides, Verbosity};
use crate::text::starts_with;
use super::lifecycle::ended;
use vstd::prelude::*;

verus! {

/// A failed request on jobs exits with 2 where the request is malformed, 3 where there is no such job,
/// 4 where its state does not allow it, and 10 where the store failed.
pub proof fn lemma_failed_requests_exit_by_their_cause(
    json: bool,
    error: ManagementError,
    r: CliError,
)
    requires
        call_ensures(management_cli_error, (json, error), r),
    ensures
        r.json == json,
        r.exit == 2 <==> error is InvalidLimit,
        r.exit == 3 <==> error is NotFound || error is Ambiguous || error is InvalidPrefix,
        r.exit == 4 <==> error is StateConflict || error is ConfirmationRequired,
        r.exit == 10 <==> error is Store,
        r.exit == 2 ==> r.code@ == "INVALID_ARGUMENT"@,
        r.exit == 3 ==> r.code@ == "JOB_NOT_FOUND"@,
        r.exit == 4 ==> r.code@ == "STATE_CONFLICT"@,
        r.exit == 10 ==> r.code@ == "STORAGE_ERROR"@,
        error matches ManagementError::StateConflict(detail) ==> r.message@ == detail@,
        error is NotFound ==> r.message@ == "job was not found"@,
{
}

/// Output that cannot be read is a failure of the store; any other missing output was not found.
pub proof fn lemma_missing_output_is_not_found(json: bool, error: RunOutputError, r: CliError)
    requires
        call_ensures(output_cli_error, (json, error), r),
    ensures
        r.json == json,
        r.exit == 10 <==> error is Read || error is Store,
        r.exit == 3 <==> !(error is Read || error is Store),
{
}

/// A durable job is taken only where the service is installed and running.
pub proof fn lemma_durable_jobs_need_the_service(
    status: &ServiceStatus,
    json: bool,
    r: Result<(), CliError>,
)
    requires
        call_ensures(require_durable, (status, json), r),
    ensures
        r is Ok <==> status.installed && status.running,
        r matches Err(error) ==> error.exit == 5,
{
}

/// A job is saved only where it is not a dry run and its tier is no obstacle: a session job at once, a
/// durable job once the service was found installed and running.
pub proof fn lemma_job_is_saved_only_where_it_is_kept(
    state: ScheduleState,
    event: ScheduleEvent,
    r: (ScheduleState, ScheduleAction),
)
    requires
        call_ensures(schedule_step, (state, event), r),
    ensures
        r.1 == ScheduleAction::Store <==> {
            ||| state == ScheduleState::Start && event == (ScheduleEvent::Built {
                tier: RuntimeTier::Session,
                dry_run: false,
            })
            ||| state == (ScheduleState::Checking { dry_run: false }) && event
                == (ScheduleEvent::Service { installed: true, running: true })
        },
        r.1 == ScheduleAction::DryRun <==> {
            ||| state == ScheduleState::Start && event == (ScheduleEvent::Built {
                tier: RuntimeTier::Session,
                dry_run: true,
            })
            ||| state == (ScheduleState::Checking { dry_run: true }) && event
                == (ScheduleEvent::Service { installed: true, running: true })
        },
        r.1 == ScheduleAction::AskService <==> state == ScheduleState::Start && (event matches
            ScheduleEvent::Built { tier, .. } && tier == RuntimeTier::Durable),
        r.1 == ScheduleAction::AskService ==> r.0 == (ScheduleState::Checking {
            dry_run: event->dry_run,
        }),
        r.1 != ScheduleAction::AskService ==> r.0 == ScheduleState::Decided,
{
}

/// Only a job that was saved without a supervisor makes a submission fail.
pub proof fn lemma_unsupervised_jobs_are_reported(outcome: &SubmissionOutcome, r: u8)
    requires
        call_ensures(submission_exit, (outcome,), r),
    ensures
        outcome is CommittedUnsupervised ==> r == 11,
        !(outcome is CommittedUnsupervised) ==> r == 0,
{
}

/// A supervisor is told again until it answers, refuses, or the time is over.
pub proof fn lemma_supervisor_is_told_until_the_deadline(
    answer: Result<(), SupervisorAckError>,
    over: bool,
    r: AckStep,
)
    requires
        call_ensures(ack_step, (answer, over), r),
    ensures
        r is Done <==> answer is Ok,
        r is Retry ==> answer is Err && !over,
        r matches AckStep::Failed(error) ==> answer == Err::<(), SupervisorAckError>(error),
{
}

/// Warnings come where their option is given, unless nothing is to be said.
pub proof fn lemma_warnings_follow_their_options(
    options: &ScheduleOptions,
    quiet: bool,
    shell: &str,
    captured: Option<&'static str>,
    interpreted: Option<String>,
)
    requires
        call_ensures(capture_warning, (options, quiet), captured),
        call_ensures(shell_warning, (options, quiet, shell), interpreted),
    ensures
        captured is Some <==> options.capture_env && !quiet,
        interpreted is Some <==> options.shell && !quiet,
{
}

/// The command line overrides the configuration where an option says so, and nowhere else.
pub proof fn lemma_options_override_settings(
    global: &GlobalArgs,
    durable: bool,
    r: ConfigOverrides,
)
    requires
        call_ensures(config_overrides, (global, durable), r),
    ensures
        r.default_runtime is Some <==> durable,
        r.default_runtime matches Some(tier) ==> tier == RuntimeTier::Durable,
        r.color == Some(ColorMode::Always) <==> global.color == ColorArg::Always,
        r.color == Some(ColorMode::Never) <==> global.color == ColorArg::Never,
        r.color == Some(ColorMode::Auto) <==> global.color == ColorArg::Auto,
        r.verbosity == Some(Verbosity::Quiet) <==> global.quiet,
        r.verbosity == Some(Verbosity::Verbose) <==> !global.quiet && global.verbose > 0,
        r.verbosity == Some(Verbosity::Normal) <==> !global.quiet && global.verbose == 0,
        r.default_timezone is None && r.default_shell is None && r.cancel_grace is None,
        r.history_days is None && r.terminal_job_days is None && r.max_log_bytes_per_stream is None,
{
}

// ---------------------------------------------------------------------------------------------
// Cancelling
// ---------------------------------------------------------------------------------------------
/// A cancellation is recorded for a job that is still open; for one that was cancelled, or is about to be,
/// nothing is left to do, and for one that ended otherwise it is too late.
pub proof fn lemma_open_jobs_are_cancelled(state: JobState, r: CancelNeed)
    requires
        call_ensures(cancel_need, (state,), r),
    ensures
        r == CancelNeed::Request <==> state == JobState::Scheduled || state == JobState::Waiting
            || state == JobState::Starting || state == JobState::Running,
        r == CancelNeed::Satisfied <==> state == JobState::CancelRequested || state
            == JobState::Cancelled,
        r == CancelNeed::TooLate <==> state == JobState::Succeeded || state == JobState::Failed
            || state == JobState::Interrupted || state == JobState::Missed,
{
}

/// A job that was being cancelled ends as its run did.
pub proof fn lemma_job_ends_as_its_run(state: RunState, r: Result<JobState, ManagementError>)
    requires
        call_ensures(cancellation_target, (state,), r),
    ensures
        r is Ok <==> ended(state),
        state == RunState::Succeeded <==> r == Ok::<JobState, ManagementError>(
            JobState::Succeeded,
        ),
        state == RunState::Failed <==> r == Ok::<JobState, ManagementError>(JobState::Failed),
        state == RunState::Cancelled <==> r == Ok::<JobState, ManagementError>(
            JobState::Cancelled,
        ),
        state == RunState::Interrupted <==> r == Ok::<JobState, ManagementError>(
            JobState::Interrupted,
        ),
{
}

/// A run that was asked to stop is waited for until it ends or the time is over.
pub proof fn lemma_run_is_waited_for(
    found: Option<Run>,
    over: bool,
    r: Result<StopStep, ManagementError>,
)
    requires
        call_ensures(stop_step, (found, over), r),
    ensures
        match r {
            Ok(StopStep::Ended(run)) => found == Some(run) && ended(run@.state),
            Ok(StopStep::Wait) => !over && (found matches Some(run) && !ended(run@.state)),
            Err(_) => found matches Some(run) ==> over && !ended(run@.state),
        },
{
}

/// Every failure has its exit status and its code.
pub proof fn lemma_failures_have_their_exit(
    json: bool,
    message: String,
    usage: CliError,
    capability: CliError,
    not_found: CliError,
    conflict: CliError,
    storage: CliError,
    permission: CliError,
    supervision: CliError,
    internal: CliError,
)
    requires
        call_ensures(CliError::usage, (json, message), usage),
        call_ensures(CliError::capability, (json, message), capability),
        call_ensures(CliError::not_found, (json, message), not_found),
        call_ensures(CliError::conflict, (json, message), conflict),
        call_ensures(CliError::storage, (json, message), storage),
        call_ensures(CliError::permission, (json, message), permission),
        call_ensures(CliError::supervision, (json, message), supervision),
        call_ensures(CliError::internal, (json, message), internal),
    ensures
        usage.exit == 2 && usage.code@ == "INVALID_ARGUMENT"@ && usage.message == message,
        not_found.exit == 3 && not_found.code@ == "JOB_NOT_FOUND"@ && not_found.message == message,
        conflict.exit == 4 && conflict.code@ == "STATE_CONFLICT"@ && conflict.message == message,
        capability.exit == 5 && capability.code@ == "CAPABILITY_UNAVAILABLE"@
            && capability.message == message,
        storage.exit == 10 && storage.code@ == "STORAGE_ERROR"@ && storage.message == message,
        supervision.exit == 11 && supervision.code@ == "SUPERVISION_ERROR"@ && supervision.message
            == message,
        permission.exit == 12 && permission.code@ == "PERMISSION_ERROR"@ && permission.message
            == message,
        internal.exit == 70 && internal.code@ == "INTERNAL_ERROR"@ && internal.message == message,
        usage.json == json && not_found.json == json && conflict.json == json,
{
}

/// Advice is given for missing jobs and for states that do not fit.
pub proof fn lemma_advice_is_given(code: &str, r: Option<&'static str>)
    requires
        call_ensures(remediation, (code,), r),
    ensures
        r is Some <==> code@ == "JOB_NOT_FOUND"@ || code@ == "STATE_CONFLICT"@,
        r matches Some(text) ==> text@ == "Run `atx list` to inspect job IDs."@ || text@
            == "Run `atx show JOB` to inspect its current state."@,
{
}

/// The supervisor listens below the runtime directory.
pub proof fn lemma_supervisor_socket(runtime: &str, r: String)
    requires
        call_ensures(socket_path, (runtime,), r),
    ensures
        runtime@.len() > 0 && runtime@.last() != '/' ==> r@ == runtime@ + seq!['/']
            + "supervisor.sock"@,
{
    reveal_strlit("supervisor.sock");
}

/// A supervisor that refused the job is not told again, also where there is time left.
pub proof fn lemma_refusals_are_final(
    error: SupervisorAckError,
    over: bool,
    r: AckStep,
    before: Seq<char>,
    after: Seq<char>,
)
    requires
        call_ensures(ack_step, (Err::<(), SupervisorAckError>(error), over), r),
    ensures
        error.0@ == before + "rejected the wake"@ + after ==> r == AckStep::Failed(error),
        over ==> r == AckStep::Failed(error),
{
    let prefix = "supervisor did not acknowledge job: "@;
    let words = "rejected the wake"@;
    let text = prefix + error.0@;
    if error.0@ == before + words + after {
        let at = (prefix + before).len() as int;
        assert(text.skip(at) =~= words + after);
        assert(text.skip(at).take(words.len() as int) =~= words);
        assert(starts_with(text.skip(at), words));
    }
}

} // verus!
