//! Submitting a job.
use vstd::prelude::*;

use super::args::{ColorArg, GlobalArgs, ScheduleOptions};
use super::error::CliError;
use super::exit;
use crate::application::service::ServiceStatus;
use crate::application::submit::{
    SubmissionOutcome, SubmissionStore, SubmissionStoreError, SupervisorAckError,
    SupervisorAcknowledger,
};
use crate::domain::id::JobId;
use crate::domain::job::Job;
use crate::domain::primitives::Revision;
use crate::domain::schedule::RuntimeTier;
use crate::infrastructure::config::{ColorMode, ConfigOverrides, Verbosity};
use crate::path_text::{join_path, path_join};
use crate::text::{contains_text, holds, push_text};

verus! {

// ---------------------------------------------------------------------------------------------
// Before
// ---------------------------------------------------------------------------------------------
/// The warning about a captured environment, where one is due.
pub fn capture_warning(options: &ScheduleOptions, quiet: bool) -> (r: Option<&'static str>)
    ensures
        match r {
            Some(warning) => options.capture_env && !quiet && warning@
                == "Warning: --capture-env may save credentials in the state database."@,
            None => !options.capture_env || quiet,
        },
{
    if options.capture_env && !quiet {
        Some("Warning: --capture-env may save credentials in the state database.")
    } else {
        None
    }
}

/// The warning about a shell command, where one is due.
pub fn shell_warning(options: &ScheduleOptions, quiet: bool, shell: &str) -> (r: Option<String>)
    ensures
        match r {
            Some(warning) => options.shell && !quiet && warning@
                == "Warning: --shell runs the command string through "@ + shell@
                + "; shell metacharacters are interpreted."@,
            None => !options.shell || quiet,
        },
{
    if options.shell && !quiet {
        let mut out: String = "Warning: --shell runs the command string through ".to_owned();
        push_text(&mut out, shell);
        push_text(&mut out, "; shell metacharacters are interpreted.");
        Some(out)
    } else {
        None
    }
}

/// The settings that the command line overrides.
pub fn config_overrides(global: &GlobalArgs, durable: bool) -> (r: ConfigOverrides)
    ensures
        r.default_timezone is None,
        r.default_runtime == if durable {
            Some(RuntimeTier::Durable)
        } else {
            None
        },
        r.default_shell is None,
        r.cancel_grace is None,
        r.history_days is None,
        r.terminal_job_days is None,
        r.max_log_bytes_per_stream is None,
        r.color == Some(
            match global.color {
                ColorArg::Auto => ColorMode::Auto,
                ColorArg::Always => ColorMode::Always,
                ColorArg::Never => ColorMode::Never,
            },
        ),
        r.verbosity == Some(
            if global.quiet {
                Verbosity::Quiet
            } else if global.verbose > 0 {
                Verbosity::Verbose
            } else {
                Verbosity::Normal
            },
        ),
{
    ConfigOverrides {
        default_timezone: None,
        default_runtime: if durable {
            Some(RuntimeTier::Durable)
        } else {
            None
        },
        default_shell: None,
        cancel_grace: None,
        history_days: None,
        terminal_job_days: None,
        max_log_bytes_per_stream: None,
        color: Some(
            match global.color {
                ColorArg::Auto => ColorMode::Auto,
                ColorArg::Always => ColorMode::Always,
                ColorArg::Never => ColorMode::Never,
            },
        ),
        verbosity: Some(
            if global.quiet {
                Verbosity::Quiet
            } else if global.verbose > 0 {
                Verbosity::Verbose
            } else {
                Verbosity::Normal
            },
        ),
    }
}

/// Checks that the durable service is there to keep a durable job.
pub fn require_durable(status: &ServiceStatus, json: bool) -> (r: Result<(), CliError>)
    ensures
        if status.installed && status.running {
            r is Ok
        } else {
            r matches Err(error) && error.is(5, "CAPABILITY_UNAVAILABLE"@) && error.message@
                == "durable service is not installed and running"@ && error.json == json
        },
{
    if !status.installed || !status.running {
        return Err(
            CliError::capability(json, "durable service is not installed and running".to_owned()),
        );
    }
    Ok(())
}

/// Where the scheduling of a job stands.
#[derive(Clone, Copy, Debug, PartialEq, Eq, Structural)]
pub enum ScheduleState {
    /// The job was not built yet.
    Start,
    /// The durable service is being asked for.
    Checking { dry_run: bool },
    /// Nothing is left to decide.
    Decided,
}

/// What happened next.
#[derive(Clone, Copy, Debug, PartialEq, Eq, Structural)]
pub enum ScheduleEvent {
    /// The job was built.
    Built { tier: RuntimeTier, dry_run: bool },
    /// The durable service was found so.
    Service { installed: bool, running: bool },
}

/// What to do next.
#[derive(Clone, Copy, Debug, PartialEq, Eq, Structural)]
pub enum ScheduleAction {
    /// Ask for the durable service.
    AskService,
    /// Show the job without saving it.
    DryRun,
    /// Save the job and hand it to the supervisor.
    Store,
    /// Refuse the job: the durable service does not keep it.
    Refuse,
}

/// What follows once the tier of a job is no obstacle.
pub open spec fn store_unless(dry_run: bool) -> ScheduleAction {
    if dry_run {
        ScheduleAction::DryRun
    } else {
        ScheduleAction::Store
    }
}

/// The next state and what to do: a durable job is only saved where the service is installed and
/// running, and a dry run saves nothing. An event that does not fit the state refuses the job.
pub open spec fn schedule_next(state: ScheduleState, event: ScheduleEvent) -> (
    ScheduleState,
    ScheduleAction,
) {
    match (state, event) {
        (ScheduleState::Start, ScheduleEvent::Built { tier, dry_run }) => match tier {
            RuntimeTier::Durable => (
                ScheduleState::Checking { dry_run },
                ScheduleAction::AskService,
            ),
            RuntimeTier::Session => (ScheduleState::Decided, store_unless(dry_run)),
        },
        (
            ScheduleState::Checking { dry_run },
            ScheduleEvent::Service { installed, running },
        ) => if installed && running {
            (ScheduleState::Decided, store_unless(dry_run))
        } else {
            (ScheduleState::Decided, ScheduleAction::Refuse)
        },
        _ => (ScheduleState::Decided, ScheduleAction::Refuse),
    }
}

fn store_or_show(dry_run: bool) -> (r: ScheduleAction)
    ensures
        r == store_unless(dry_run),
{
    if dry_run {
        ScheduleAction::DryRun
    } else {
        ScheduleAction::Store
    }
}

/// Decides the next step of scheduling a job.
pub fn schedule_step(state: ScheduleState, event: ScheduleEvent) -> (r: (
    ScheduleState,
    ScheduleAction,
))
    ensures
        r == schedule_next(state, event),
        r.1 == ScheduleAction::Store ==> match state {
            ScheduleState::Start => event matches ScheduleEvent::Built { tier, dry_run } && tier
                == RuntimeTier::Session && !dry_run,
            ScheduleState::Checking { dry_run } => !dry_run && (event matches
                ScheduleEvent::Service { installed, running } && installed && running),
            ScheduleState::Decided => false,
        },
{
    match (state, event) {
        (ScheduleState::Start, ScheduleEvent::Built { tier, dry_run }) => match tier {
            RuntimeTier::Durable => (
                ScheduleState::Checking { dry_run },
                ScheduleAction::AskService,
            ),
            RuntimeTier::Session => (ScheduleState::Decided, store_or_show(dry_run)),
        },
        (
            ScheduleState::Checking { dry_run },
            ScheduleEvent::Service { installed, running },
        ) => {
            if installed && running {
                (ScheduleState::Decided, store_or_show(dry_run))
            } else {
                (ScheduleState::Decided, ScheduleAction::Refuse)
            }
        },
        _ => (ScheduleState::Decided, ScheduleAction::Refuse),
    }
}

/// A job that is scheduled is saved only after a durable check that passed or was not needed, and
/// never in a dry run, whatever two events follow each other.
pub proof fn lemma_stored_only_after_check(first: ScheduleEvent, second: ScheduleEvent)
    ensures
        schedule_next(ScheduleState::Start, first).1 == ScheduleAction::Store ==> {
            first matches ScheduleEvent::Built { tier, dry_run } && tier == RuntimeTier::Session
                && !dry_run
        },
        schedule_next(schedule_next(ScheduleState::Start, first).0, second).1
            == ScheduleAction::Store ==> {
            &&& first matches ScheduleEvent::Built { tier, dry_run } && tier
                == RuntimeTier::Durable && !dry_run
            &&& second == (ScheduleEvent::Service { installed: true, running: true })
        },
{
}

/// A store and a supervisor that a dry run never reaches.
pub struct DryRunBoundary;

impl SubmissionStore for DryRunBoundary {
    fn create_job(&mut self, _job: &Job) -> (r: Result<(), SubmissionStoreError>)
        ensures
            *final(self) == *old(self),
            r matches Err(error) && error.0@ == "dry-run crossed its storage boundary"@,
    {
        Err(SubmissionStoreError("dry-run crossed its storage boundary".to_owned()))
    }
}

impl SupervisorAcknowledger for DryRunBoundary {
    fn acknowledge(&mut self, _job_id: JobId, _revision: Revision) -> (r: Result<
        (),
        SupervisorAckError,
    >)
        ensures
            *final(self) == *old(self),
            r matches Err(error) && error.0@ == "dry-run crossed its supervisor boundary"@,
    {
        Err(SupervisorAckError("dry-run crossed its supervisor boundary".to_owned()))
    }
}

// ---------------------------------------------------------------------------------------------
// After
// ---------------------------------------------------------------------------------------------
/// The exit status of a submission: a job that nobody supervises is saved, but not well.
pub fn submission_exit(outcome: &SubmissionOutcome) -> (r: u8)
    ensures
        r == if outcome is CommittedUnsupervised {
            11u8
        } else {
            0u8
        },
{
    match outcome {
        SubmissionOutcome::CommittedUnsupervised { .. } => exit::supervision(),
        _ => 0,
    }
}

/// What is said of a job that was saved and that nobody supervises.
pub fn unsupervised_notice(outcome: &SubmissionOutcome) -> (r: Option<String>)
    ensures
        match *outcome {
            SubmissionOutcome::CommittedUnsupervised { error, .. } => r matches Some(notice)
                && notice@ == "Job was saved, but "@ + ("supervisor did not acknowledge job: "@
                + error.0@),
            _ => r is None,
        },
{
    match outcome {
        SubmissionOutcome::CommittedUnsupervised { error, .. } => {
            let mut out: String = "Job was saved, but ".to_owned();
            push_text(&mut out, error.to_string().as_str());
            Some(out)
        },
        _ => None,
    }
}

// ---------------------------------------------------------------------------------------------
// The supervisor
// ---------------------------------------------------------------------------------------------
/// The socket of the supervisor.
pub fn socket_path(runtime_directory: &str) -> (r: String)
    ensures
        r@ == path_join(runtime_directory@, "supervisor.sock"@),
{
    join_path(runtime_directory, "supervisor.sock")
}

/// What to do after a supervisor that was just started was told of a job.
#[derive(Debug, PartialEq, Eq)]
pub enum AckStep {
    /// It has the job.
    Done,
    /// It will not take the job.
    Failed(SupervisorAckError),
    /// It is told again after a pause.
    Retry,
}

/// The supervisor refused the job, so that telling it again cannot help.
pub open spec fn is_rejection(error: SupervisorAckError) -> bool {
    holds("supervisor did not acknowledge job: "@ + error.0@, "rejected the wake"@)
}

/// What to do after a supervisor that was just started was told of a job. It may still be getting
/// ready, so that it is told again until the time is over.
pub fn ack_step(answer: Result<(), SupervisorAckError>, deadline_over: bool) -> (r: AckStep)
    ensures
        r == match answer {
            Ok(_) => AckStep::Done,
            Err(error) => if is_rejection(error) || deadline_over {
                AckStep::Failed(error)
            } else {
                AckStep::Retry
            },
        },
{
    match answer {
        Ok(_) => AckStep::Done,
        Err(error) => {
            if contains_text(error.to_string().as_str(), "rejected the wake") || deadline_over {
                AckStep::Failed(error)
            } else {
                AckStep::Retry
            }
        },
    }
}

} // verus!
