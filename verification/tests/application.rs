use std::cell::Cell;

use atx::application::cancel::{
    after_commit, after_load, after_signal, cancel_claimed_run, AfterCommit, AfterLoad,
    CancelRunError, CancelRunResult, CancellationStore, CancellationStoreError, GroupCancellation,
    ProcessCancellationError, ProcessGroupCanceller,
};
use atx::application::doctor::{DiagnosticStatus, DoctorReportBuilder};
use atx::application::history::{
    read_run_output, LogFiles, RunOutputError, RunOutputStore, RunOutputStoreError,
};
use atx::application::list::{
    list_jobs, list_runs, remove_job, rerun_job, resolve_job, ManagementError, ManagementStore,
    ManagementStoreError,
};
use atx::application::reconcile::{
    plan_recovery, reconcile_startup, CommandFate, IdentityInspectionError, IdentityInspector,
    IdentityStatus, ReconciliationError, RecoveryAction, RecoveryRecord, RecoveryStore,
    RecoveryStoreError, StartupReconciliationError,
};
use atx::application::service::{
    install_service, uninstall_service, ServiceAvailability, ServiceLifecycleError,
    ServiceManager, ServiceManagerError, ServiceStatus,
};
use atx::application::submit::{
    submit_job, SubmissionOutcome, SubmissionStore, SubmissionStoreError, SubmitError,
    SupervisorAckError, SupervisorAcknowledger,
};
use atx::domain::duration::DurationSeconds;
use atx::domain::environment::Environment;
use atx::domain::execution::{ExecutionMode, ExecutionSpec};
use atx::domain::id::{JobId, RunId};
use atx::domain::job::Job;
use atx::domain::primitives::{Revision, Sequence, UtcTimestamp};
use atx::domain::recurrence::ElapsedInstant;
use atx::domain::run::{ClaimToken, ProcessIdentitySnapshot, Run, RunOutcome};
use atx::domain::schedule::{MissedPolicy, RuntimeTier, Schedule};
use atx::domain::state::{JobState, RunState};
use atx::domain::transition::TransitionActor;

fn timestamp(second: i64) -> UtcTimestamp {
    UtcTimestamp::from_second(second).expect("timestamp")
}

fn execution() -> ExecutionSpec {
    ExecutionSpec::new(
        ExecutionMode::Direct,
        vec!["true".to_owned()],
        "/tmp".to_owned(),
        Environment::empty(),
    )
    .ok()
    .expect("execution")
}

fn sequence(value: u64) -> Sequence {
    Sequence::new(value).expect("sequence")
}

fn step(job: &mut Job, to: JobState, recurring: bool, actor: TransitionActor, second: i64) {
    job.transition(to, recurring, actor, "test", timestamp(second)).ok().expect("transition");
}

// Cancellation ----------------------------------------------------------------------------------

struct OneRun {
    run: Run,
    committed: bool,
}

impl CancellationStore for OneRun {
    fn load_for_cancellation(&self, _id: RunId) -> Result<Option<Run>, CancellationStoreError> {
        Ok(Some(self.run.clone()))
    }

    fn commit_cancellation(
        &mut self,
        _id: RunId,
        _claim_token: ClaimToken,
    ) -> Result<Run, CancellationStoreError> {
        self.committed = true;
        self.run = self
            .run
            .clone()
            .request_cancellation()
            .map_err(|error| CancellationStoreError(error.to_string()))?;
        Ok(self.run.clone())
    }
}

struct FlagCanceller<'a>(&'a Cell<bool>);

impl ProcessGroupCanceller for FlagCanceller<'_> {
    fn cancel_group(&mut self, run: &Run) -> Result<GroupCancellation, ProcessCancellationError> {
        self.0.set(matches!(run.state(), RunState::CancelRequested));
        Ok(GroupCancellation::KilledAfterGrace)
    }
}

fn identity(pid: u32, start_token: u64, process_group_id: i32) -> ProcessIdentitySnapshot {
    ProcessIdentitySnapshot {
        boot_identity: "boot".to_owned(),
        pid,
        start_token,
        process_group_id,
    }
}

fn fresh_run(number: u64, second: i64, token: ClaimToken) -> Run {
    Run::new(JobId::new(), sequence(number), timestamp(second), timestamp(second), token)
}

fn started(run: Run, second: i64) -> Run {
    run.mark_running(
        timestamp(second),
        identity(10, 100, 10),
        identity(11, 101, 20),
        "runs/out.log".to_owned(),
        "runs/err.log".to_owned(),
    )
    .ok()
    .expect("running")
}

#[test]
fn cancellation_is_committed_before_signalling() {
    let token = ClaimToken::from_bytes([7; 32]);
    let run = started(fresh_run(1, 1_000, token), 1_000);
    let id = run.id();
    let mut store = OneRun { run, committed: false };
    let committed = Cell::new(false);
    let result = cancel_claimed_run(&mut store, &mut FlagCanceller(&committed), id, token)
        .ok()
        .expect("cancel");
    assert!(committed.get());
    assert!(matches!(result, CancelRunResult::Signalled { .. }));
}

struct MissingRuns;

impl CancellationStore for MissingRuns {
    fn load_for_cancellation(&self, _id: RunId) -> Result<Option<Run>, CancellationStoreError> {
        Ok(None)
    }

    fn commit_cancellation(
        &mut self,
        _id: RunId,
        _claim_token: ClaimToken,
    ) -> Result<Run, CancellationStoreError> {
        Err(CancellationStoreError("nothing to commit".to_owned()))
    }
}

#[test]
fn cancellation_rejects_missing_runs_and_stale_claims() {
    let token = ClaimToken::from_bytes([7; 32]);
    let run = fresh_run(1, 2_000, token);
    let id = run.id();

    let mut missing = MissingRuns;
    assert!(matches!(
        cancel_claimed_run(&mut missing, &mut FlagCanceller(&Cell::new(false)), id, token),
        Err(CancelRunError::NotFound)
    ));

    let mut store = OneRun { run, committed: false };
    let stale = ClaimToken::from_bytes([9; 32]);
    assert!(matches!(
        cancel_claimed_run(&mut store, &mut FlagCanceller(&Cell::new(false)), id, stale),
        Err(CancelRunError::InvalidClaim)
    ));
}

#[test]
fn terminal_runs_and_prespawn_commits_short_circuit() {
    let token = ClaimToken::from_bytes([7; 32]);
    let finished = started(fresh_run(1, 3_000, token), 3_000)
        .with_outcome(timestamp(3_002), RunOutcome::Exit(0))
        .ok()
        .expect("terminal");
    let id = finished.id();
    let mut store = OneRun { run: finished, committed: false };
    let result = cancel_claimed_run(&mut store, &mut FlagCanceller(&Cell::new(false)), id, token)
        .ok()
        .expect("already terminal");
    assert!(matches!(result, CancelRunResult::AlreadyTerminal(_)));
    assert!(!store.committed);

    // A run committed before the command spawned has no process group to
    // signal; the canceller must never run.
    let fresh = fresh_run(2, 3_000, token);
    let fresh_id = fresh.id();
    let mut prespawn = OneRun { run: fresh, committed: false };
    let signalled = Cell::new(false);
    let result = cancel_claimed_run(&mut prespawn, &mut FlagCanceller(&signalled), fresh_id, token)
        .ok()
        .expect("pre-spawn");
    assert!(matches!(result, CancelRunResult::CommittedBeforeSpawn(_)));
    assert!(prespawn.committed);
    assert!(!signalled.get());
}

#[test]
fn cancellation_steps_pass_outside_failures_on() {
    let token = ClaimToken::from_bytes([7; 32]);
    let broken = || CancellationStoreError("disk".to_owned());
    assert!(matches!(
        after_load(Err(broken()), token),
        AfterLoad::Done(Err(CancelRunError::Store(error))) if error == broken()
    ));
    assert!(matches!(after_load(Ok(Some(fresh_run(1, 10, token))), token), AfterLoad::Commit));
    assert!(matches!(
        after_commit(Err(broken())),
        AfterCommit::Done(Err(CancelRunError::Store(error))) if error == broken()
    ));
    assert!(matches!(
        after_commit(Ok(started(fresh_run(1, 10, token), 11))),
        AfterCommit::Signal(_)
    ));
    let refused = ProcessCancellationError("not permitted".to_owned());
    assert!(matches!(
        after_signal(started(fresh_run(1, 10, token), 11), Err(refused)),
        Err(CancelRunError::Process(_))
    ));
}

// Diagnostics -----------------------------------------------------------------------------------

#[test]
fn warnings_are_degraded_but_failures_make_report_unhealthy() {
    let mut degraded = DoctorReportBuilder::default();
    degraded.push("service".to_owned(), DiagnosticStatus::Warning, "unavailable".to_owned(), None);
    assert!(degraded.finish("test".to_owned(), None, false, None).healthy);

    let mut failed = DoctorReportBuilder::default();
    failed.push("state".to_owned(), DiagnosticStatus::Fail, "wrong owner".to_owned(), None);
    assert!(!failed.finish("test".to_owned(), None, false, None).healthy);
}

#[test]
fn reports_keep_checks_in_order() {
    let mut builder = DoctorReportBuilder::default();
    builder.push("first".to_owned(), DiagnosticStatus::Pass, "fine".to_owned(), None);
    builder.push(
        "second".to_owned(),
        DiagnosticStatus::Warning,
        "loose".to_owned(),
        Some("tighten".to_owned()),
    );
    let report = builder.finish("2025a".to_owned(), Some(3), true, None);
    assert_eq!(report.checks.len(), 2);
    assert_eq!(report.checks[0].name, "first");
    assert_eq!(report.checks[1].remediation.as_deref(), Some("tighten"));
    assert_eq!(report.tzdb_version, "2025a");
    assert_eq!(report.schema_version, Some(3));
    assert!(report.durable_available);
    assert!(report.config.is_none());
}

// Run output ------------------------------------------------------------------------------------

struct Captured {
    runs: Vec<Run>,
    jobs: Vec<Job>,
}

impl Captured {
    fn with_run(run: Run) -> Captured {
        Captured { runs: vec![run], jobs: Vec::new() }
    }
}

impl RunOutputStore for Captured {
    fn find_runs_by_prefix(
        &self,
        prefix: &str,
        limit: usize,
    ) -> Result<Vec<Run>, RunOutputStoreError> {
        Ok(self
            .runs
            .iter()
            .filter(|run| run.id().to_string().starts_with(prefix))
            .take(limit)
            .cloned()
            .collect())
    }

    fn latest_run(&self, _job_id: JobId) -> Result<Option<Run>, RunOutputStoreError> {
        Ok(self.runs.first().cloned())
    }

    fn find_jobs_by_prefix(
        &self,
        _prefix: &str,
        _limit: usize,
    ) -> Result<Vec<Job>, RunOutputStoreError> {
        Ok(self.jobs.clone())
    }

    fn stdout_truncated(&self, _run_id: RunId) -> Result<bool, RunOutputStoreError> {
        Ok(false)
    }

    fn stderr_truncated(&self, _run_id: RunId) -> Result<bool, RunOutputStoreError> {
        Ok(true)
    }
}

/// A file tree in memory: a path with contents is a file, one without is a directory.
struct Tree(Vec<(&'static str, Option<&'static [u8]>)>);

impl LogFiles for Tree {
    fn resolve(&self, path: &str) -> Option<String> {
        self.0.iter().find(|entry| entry.0 == path).map(|entry| entry.0.to_owned())
    }

    fn is_file(&self, path: &str) -> bool {
        self.0.iter().any(|entry| entry.0 == path && entry.1.is_some())
    }

    fn read(&self, path: &str, _directory: &str) -> Result<Vec<u8>, String> {
        match self.0.iter().find(|entry| entry.0 == path) {
            Some((_, Some(content))) => Ok(content.to_vec()),
            _ => Err("unreadable".to_owned()),
        }
    }
}

fn captured_run(stdout_path: &str, stderr_path: &str) -> Run {
    fresh_run(1, 1_000, ClaimToken::from_bytes([7; 32]))
        .mark_running(
            timestamp(1_001),
            identity(10, 10, 10),
            identity(10, 10, 10),
            stdout_path.to_owned(),
            stderr_path.to_owned(),
        )
        .ok()
        .expect("running")
        .with_outcome(timestamp(1_002), RunOutcome::Exit(0))
        .ok()
        .expect("terminal")
}

#[test]
fn output_reads_captured_streams_from_disk() {
    let run = captured_run("runs/x/stdout.log", "runs/x/stderr.log");
    let tree = Tree(vec![
        ("/state/runs", None),
        ("/state/runs/x/stdout.log", Some(b"hello")),
        ("/state/runs/x/stderr.log", Some(b"oops")),
    ]);
    let store = Captured::with_run(run.clone());
    let output =
        read_run_output(&store, &tree, "/state", &run.id().to_string()).expect("output");
    assert_eq!(output.stdout.content, b"hello");
    assert_eq!(output.stderr.content, b"oops");
    assert_eq!(output.outcome, Some(RunOutcome::Exit(0)));
    assert!(!output.stdout.truncated);
    assert!(output.stderr.truncated);
    assert_eq!(output.run_id, run.id());
    assert_eq!(output.job_id, run.job_id());
}

#[test]
fn unknown_and_ambiguous_prefixes_fail() {
    let store = Captured { runs: Vec::new(), jobs: Vec::new() };
    let nothing = Tree(Vec::new());
    assert!(matches!(
        read_run_output(&store, &nothing, "/nonexistent", "zzzzzz"),
        Err(RunOutputError::NotFound)
    ));
    assert!(matches!(
        read_run_output(&store, &nothing, "/nonexistent", "!!"),
        Err(RunOutputError::InvalidPrefix)
    ));
}

#[test]
fn missing_log_files_surface_as_missing_logs() {
    let run = captured_run("runs/gone/stdout.log", "runs/gone/stderr.log");
    let store = Captured::with_run(run);
    assert!(matches!(
        read_run_output(&store, &Tree(Vec::new()), "/state", "0"),
        Err(RunOutputError::MissingLogs)
    ));
}

#[test]
fn output_prefixes_reject_empty_and_oversized_inputs() {
    let store = Captured { runs: Vec::new(), jobs: Vec::new() };
    let nothing = Tree(Vec::new());
    assert!(matches!(
        read_run_output(&store, &nothing, "/nonexistent", ""),
        Err(RunOutputError::InvalidPrefix)
    ));
    let oversized = "a".repeat(27);
    assert!(matches!(
        read_run_output(&store, &nothing, "/nonexistent", oversized.as_str()),
        Err(RunOutputError::InvalidPrefix)
    ));
}

#[test]
fn ambiguous_run_prefixes_are_rejected() {
    let first = captured_run("runs/a/stdout.log", "runs/a/stderr.log");
    let second = captured_run("runs/b/stdout.log", "runs/b/stderr.log");
    let store = Captured { runs: vec![first, second], jobs: Vec::new() };
    assert!(matches!(
        read_run_output(&store, &Tree(Vec::new()), "/nonexistent", "0"),
        Err(RunOutputError::Ambiguous)
    ));
}

#[test]
fn uncaptured_runs_and_directory_logs_are_rejected() {
    // A starting run has no log paths yet.
    let token = ClaimToken::from_bytes([7; 32]);
    let store = Captured::with_run(fresh_run(1, 4_000, token));
    assert!(matches!(
        read_run_output(&store, &Tree(Vec::new()), "/nonexistent", "0"),
        Err(RunOutputError::NotCaptured)
    ));

    // Terminal spawn failures record an outcome without any capture.
    let failed = fresh_run(2, 4_000, token)
        .with_outcome(timestamp(4_001), RunOutcome::Failure("spawn failed".to_owned()))
        .ok()
        .expect("terminal");
    let empty = read_run_output(&Captured::with_run(failed), &Tree(Vec::new()), "/nowhere", "0")
        .expect("empty capture");
    assert_eq!(empty.stdout.content, b"");
    assert_eq!(empty.stderr.content, b"");

    // Log paths that resolve to directories are not readable files.
    let run = captured_run("runs/x/stdout.log", "runs/x/stderr.log");
    let tree = Tree(vec![
        ("/state/runs", None),
        ("/state/runs/x/stdout.log", None),
        ("/state/runs/x/stderr.log", None),
    ]);
    assert!(matches!(
        read_run_output(&Captured::with_run(run), &tree, "/state", "0"),
        Err(RunOutputError::MissingLogs)
    ));
}

#[test]
fn output_of_a_job_is_that_of_its_latest_run() {
    let run = captured_run("runs/x/stdout.log", "runs/x/stderr.log");
    let tree = Tree(vec![
        ("/state/runs", None),
        ("/state/runs/x/stdout.log", Some(b"out")),
        ("/state/runs/x/stderr.log", Some(b"")),
    ]);
    let store = Captured { runs: vec![run], jobs: vec![waiting()] };
    let output = read_run_output(&store, &tree, "/state", "zz").expect("latest run");
    assert_eq!(output.stdout.content, b"out");

    let without_runs = Captured { runs: Vec::new(), jobs: vec![waiting()] };
    assert_eq!(
        read_run_output(&without_runs, &tree, "/state", "zz").err(),
        Some(RunOutputError::NoRuns)
    );
}

// Management ------------------------------------------------------------------------------------

struct Jobs {
    jobs: Vec<Job>,
    hidden: bool,
    rerun: bool,
}

impl Jobs {
    fn holding(jobs: Vec<Job>) -> Jobs {
        Jobs { jobs, hidden: false, rerun: false }
    }

    fn find(&self, job_id: JobId) -> Result<Job, ManagementStoreError> {
        self.jobs
            .iter()
            .find(|job| job.id() == job_id)
            .cloned()
            .ok_or_else(|| ManagementStoreError("missing".to_owned()))
    }
}

impl ManagementStore for Jobs {
    fn list_jobs(
        &self,
        _state: Option<JobState>,
        _after: Option<JobId>,
        limit: usize,
    ) -> Result<Vec<Job>, ManagementStoreError> {
        Ok(self.jobs.iter().take(limit).cloned().collect())
    }

    fn find_jobs_by_prefix(
        &self,
        _prefix: &str,
        limit: usize,
    ) -> Result<Vec<Job>, ManagementStoreError> {
        Ok(self.jobs.iter().take(limit).cloned().collect())
    }

    fn list_runs(
        &self,
        _job_id: Option<JobId>,
        _limit: usize,
    ) -> Result<Vec<Run>, ManagementStoreError> {
        Ok(Vec::new())
    }

    fn active_runs(&self) -> Result<Vec<Run>, ManagementStoreError> {
        Ok(Vec::new())
    }

    fn latest_active_run(&self, _job_id: JobId) -> Result<Option<Run>, ManagementStoreError> {
        Ok(None)
    }

    fn hide_job(
        &mut self,
        job_id: JobId,
        _expected_revision: Revision,
        _keep_history: bool,
    ) -> Result<Job, ManagementStoreError> {
        self.hidden = true;
        self.find(job_id)
    }

    fn prepare_rerun(
        &mut self,
        job_id: JobId,
        _expected_revision: Revision,
        _now: UtcTimestamp,
    ) -> Result<Job, ManagementStoreError> {
        self.rerun = true;
        self.find(job_id)
    }
}

fn waiting() -> Job {
    let mut job = Job::new(
        timestamp(1),
        Schedule::one_shot_relative(DurationSeconds::new(30).expect("duration"), timestamp(30)),
        MissedPolicy::Hold,
        RuntimeTier::Session,
        execution(),
        501,
    )
    .ok()
    .expect("job");
    step(&mut job, JobState::Waiting, false, TransitionActor::Supervisor, 2);
    job
}

fn terminal(state: JobState) -> Job {
    let mut job = waiting();
    step(&mut job, JobState::Starting, false, TransitionActor::Supervisor, 3);
    step(&mut job, JobState::Running, false, TransitionActor::Supervisor, 4);
    step(&mut job, state, false, TransitionActor::Monitor, 5);
    job
}

#[test]
fn prefixes_report_not_found_and_ambiguity() {
    let empty = Jobs::holding(Vec::new());
    assert_eq!(resolve_job(&empty, "0").err(), Some(ManagementError::NotFound));

    let ambiguous =
        Jobs::holding(vec![terminal(JobState::Succeeded), terminal(JobState::Failed)]);
    assert!(matches!(
        resolve_job(&ambiguous, "0"),
        Err(ManagementError::Ambiguous(ids)) if ids.len() == 2
    ));
}

#[test]
fn removal_requires_a_terminal_job() {
    let mut active = Jobs::holding(vec![waiting()]);
    assert!(matches!(
        remove_job(&mut active, "0", false),
        Err(ManagementError::StateConflict(_))
    ));
    assert!(!active.hidden);

    let mut done = Jobs::holding(vec![terminal(JobState::Succeeded)]);
    assert!(remove_job(&mut done, "0", true).is_ok());
    assert!(done.hidden);
}

#[test]
fn interrupted_rerun_needs_confirmation() {
    let mut store = Jobs::holding(vec![terminal(JobState::Interrupted)]);
    assert_eq!(
        rerun_job(&mut store, "0", false, timestamp(10)).err(),
        Some(ManagementError::ConfirmationRequired)
    );
    assert!(rerun_job(&mut store, "0", true, timestamp(10)).is_ok());
    assert!(store.rerun);
}

#[test]
fn result_limits_are_bounded_before_storage() {
    let store = Jobs::holding(vec![terminal(JobState::Succeeded)]);
    assert_eq!(
        list_jobs(&store, None, None, 1_001).err(),
        Some(ManagementError::InvalidLimit)
    );
    assert_eq!(list_runs(&store, None, 0).err(), Some(ManagementError::InvalidLimit));
    assert_eq!(list_jobs(&store, None, None, 1_000).ok().map(|jobs| jobs.len()), Some(1));
}

#[test]
fn active_jobs_are_not_rerun_and_prefixes_are_checked() {
    let mut store = Jobs::holding(vec![waiting()]);
    assert!(matches!(
        rerun_job(&mut store, "0", true, timestamp(10)),
        Err(ManagementError::StateConflict(_))
    ));
    assert!(!store.rerun);
    for prefix in ["", "ab cd", "é", "a".repeat(27).as_str()] {
        assert_eq!(
            resolve_job(&store, prefix).err(),
            Some(ManagementError::InvalidPrefix),
            "{prefix}"
        );
    }
}

// Recovery --------------------------------------------------------------------------------------

struct Inspector {
    status: IdentityStatus,
    fail: bool,
    calls: Cell<usize>,
}

impl IdentityInspector for Inspector {
    fn classify(
        &self,
        _identity: &ProcessIdentitySnapshot,
    ) -> Result<IdentityStatus, IdentityInspectionError> {
        self.calls.set(self.calls.get() + 1);
        if self.fail {
            Err(IdentityInspectionError("unknown".to_owned()))
        } else {
            Ok(self.status)
        }
    }
}

fn inspector(status: IdentityStatus, fail: bool) -> Inspector {
    Inspector { status, fail, calls: Cell::new(0) }
}

fn base_job(policy: MissedPolicy, recurring: bool, due: i64) -> Job {
    let interval = DurationSeconds::new(30).expect("duration");
    let schedule = if recurring {
        Schedule::RecurringInterval { interval, persisted_anchor_utc: timestamp(due) }
    } else {
        Schedule::one_shot_relative(interval, timestamp(due))
    };
    Job::new(timestamp(1), schedule, policy, RuntimeTier::Session, execution(), 501)
        .ok()
        .expect("job")
}

fn overdue_job(policy: MissedPolicy, recurring: bool) -> Job {
    let mut job = base_job(policy, recurring, 100);
    step(&mut job, JobState::Waiting, recurring, TransitionActor::Supervisor, 2);
    job
}

fn job_in(state: JobState, policy: MissedPolicy, recurring: bool) -> Job {
    let mut job = base_job(policy, recurring, 300);
    for next in
        [JobState::Waiting, JobState::Starting, JobState::Running, JobState::CancelRequested]
    {
        if job.state() == state {
            break;
        }
        let second = i64::try_from(job.revision().get()).expect("small revision") + 1;
        step(&mut job, next, recurring, TransitionActor::Supervisor, second);
    }
    job
}

fn booted(pid: u32, boot_identity: &str) -> ProcessIdentitySnapshot {
    ProcessIdentitySnapshot {
        boot_identity: boot_identity.to_owned(),
        pid,
        start_token: u64::from(pid),
        process_group_id: i32::try_from(pid).expect("pid"),
    }
}

fn starting_run(job: &Job) -> Run {
    Run::new(
        job.id(),
        sequence(1),
        job.next_due_utc(),
        timestamp(10),
        ClaimToken::from_bytes([7; 32]),
    )
}

fn running_run(job: &Job, boot_identity: &str) -> Run {
    starting_run(job)
        .mark_running(
            timestamp(11),
            booted(10, boot_identity),
            booted(11, boot_identity),
            "runs/out.log".to_owned(),
            "runs/err.log".to_owned(),
        )
        .ok()
        .expect("running")
}

#[test]
fn live_monitor_survives_supervisor_restart() {
    let job = job_in(JobState::Running, MissedPolicy::Hold, false);
    let run = running_run(&job, "boot");
    let plan = plan_recovery(
        &[RecoveryRecord { job, active_run: Some(run.clone()) }],
        &inspector(IdentityStatus::Alive, false),
        timestamp(200),
        ElapsedInstant::from_nanos(500),
        "boot",
    )
    .ok()
    .expect("plan");

    assert_eq!(plan.preserved_runs, vec![run.id()]);
    assert!(plan.actions.is_empty());
}

#[test]
fn active_states_without_a_valid_monitor_are_interrupted() {
    for state in [JobState::Starting, JobState::Running, JobState::CancelRequested] {
        let job = job_in(state, MissedPolicy::Hold, false);
        let active_run = match state {
            JobState::Starting => Some(starting_run(&job)),
            JobState::Running => Some(running_run(&job, "old-boot")),
            JobState::CancelRequested => Some(
                running_run(&job, "old-boot").request_cancellation().ok().expect("cancellation"),
            ),
            _ => None,
        };
        let plan = plan_recovery(
            &[RecoveryRecord { job, active_run }],
            &inspector(IdentityStatus::Alive, false),
            timestamp(200),
            ElapsedInstant::from_nanos(500),
            "boot",
        )
        .ok()
        .expect("plan");
        assert!(matches!(plan.actions.as_slice(), [RecoveryAction::Interrupt { .. }]));
    }
}

#[test]
fn unknown_monitor_and_live_command_are_reported() {
    let job = job_in(JobState::Running, MissedPolicy::Hold, false);
    let run = running_run(&job, "boot");
    let plan = plan_recovery(
        &[RecoveryRecord { job, active_run: Some(run) }],
        &inspector(IdentityStatus::Alive, true),
        timestamp(200),
        ElapsedInstant::from_nanos(500),
        "boot",
    )
    .ok()
    .expect("plan");

    assert!(matches!(
        plan.actions.as_slice(),
        [RecoveryAction::Interrupt { command_fate: CommandFate::Unknown, .. }]
    ));
}

#[test]
fn waiting_jobs_apply_each_missed_policy_and_rebuild_deadlines() {
    let records: Vec<RecoveryRecord> = [
        job_in(JobState::Scheduled, MissedPolicy::Hold, false),
        overdue_job(MissedPolicy::Hold, false),
        overdue_job(MissedPolicy::RunLatest, false),
        overdue_job(MissedPolicy::Skip, true),
    ]
    .into_iter()
    .map(|job| RecoveryRecord { job, active_run: None })
    .collect();
    let inspector = inspector(IdentityStatus::Dead, false);
    let plan = || {
        plan_recovery(
            &records,
            &inspector,
            timestamp(200),
            ElapsedInstant::from_nanos(1_000),
            "boot",
        )
        .ok()
        .expect("plan")
    };
    let first = plan();
    let second = plan();

    assert!(first == second);
    assert_eq!(first.deadlines.len(), 3);
    assert_eq!(first.actions.len(), 2);
    assert!(first
        .actions
        .iter()
        .any(|action| matches!(action, RecoveryAction::MarkMissed { .. })));
    assert!(first
        .actions
        .iter()
        .any(|action| matches!(action, RecoveryAction::AdvanceRecurring { .. })));
}

#[test]
fn invalid_boot_identity_is_rejected() {
    let job = job_in(JobState::Running, MissedPolicy::Hold, false);
    for boot_identity in ["", "b\0ot"] {
        let result = plan_recovery(
            &[RecoveryRecord { job: job.clone(), active_run: None }],
            &inspector(IdentityStatus::Dead, false),
            timestamp(200),
            ElapsedInstant::from_nanos(500),
            boot_identity,
        );
        assert!(matches!(result, Err(ReconciliationError::InvalidBootIdentity)));
    }
}

#[test]
fn terminal_job_and_stray_active_run_are_rejected() {
    let mut finished = job_in(JobState::Running, MissedPolicy::Hold, false);
    step(&mut finished, JobState::Succeeded, false, TransitionActor::Monitor, 20);
    let result = plan_recovery(
        &[RecoveryRecord { job: finished.clone(), active_run: None }],
        &inspector(IdentityStatus::Dead, false),
        timestamp(200),
        ElapsedInstant::from_nanos(500),
        "boot",
    );
    assert!(matches!(
        &result,
        Err(ReconciliationError::TerminalJobLoaded(job_id)) if *job_id == finished.id()
    ));

    let waiting = overdue_job(MissedPolicy::Hold, false);
    let result = plan_recovery(
        &[RecoveryRecord { job: waiting.clone(), active_run: Some(starting_run(&waiting)) }],
        &inspector(IdentityStatus::Dead, false),
        timestamp(200),
        ElapsedInstant::from_nanos(500),
        "boot",
    );
    assert!(matches!(
        &result,
        Err(ReconciliationError::UnexpectedActiveRun(job_id)) if *job_id == waiting.id()
    ));
}

#[test]
fn active_jobs_without_a_live_run_are_interrupted() {
    // No run row at all: the command fate is unknowable.
    let plan = plan_recovery(
        &[RecoveryRecord {
            job: job_in(JobState::Running, MissedPolicy::Hold, false),
            active_run: None,
        }],
        &inspector(IdentityStatus::Alive, false),
        timestamp(200),
        ElapsedInstant::from_nanos(500),
        "boot",
    )
    .ok()
    .expect("plan");
    assert!(matches!(
        plan.actions.as_slice(),
        [RecoveryAction::Interrupt { command_fate: CommandFate::Unknown, .. }]
    ));

    // A run that already recorded a terminal outcome needs no inspection.
    let finished = job_in(JobState::Running, MissedPolicy::Hold, false);
    let done = running_run(&finished, "old-boot")
        .with_outcome(timestamp(12), RunOutcome::Exit(0))
        .ok()
        .expect("finish");
    let plan = plan_recovery(
        &[RecoveryRecord { job: finished, active_run: Some(done) }],
        &inspector(IdentityStatus::Alive, false),
        timestamp(200),
        ElapsedInstant::from_nanos(500),
        "boot",
    )
    .ok()
    .expect("plan");
    assert!(matches!(
        plan.actions.as_slice(),
        [RecoveryAction::Interrupt { command_fate: CommandFate::Unknown, .. }]
    ));
    assert!(plan.preserved_runs.is_empty());
}

#[test]
fn run_latest_recurring_job_reschedules_from_its_anchor() {
    let latest = overdue_job(MissedPolicy::RunLatest, true);
    let plan = plan_recovery(
        &[RecoveryRecord { job: latest, active_run: None }],
        &inspector(IdentityStatus::Dead, false),
        timestamp(200),
        ElapsedInstant::from_nanos(1_000),
        "boot",
    )
    .ok()
    .expect("plan");
    assert_eq!(plan.actions.len(), 1);
    assert!(matches!(
        plan.actions.as_slice(),
        [RecoveryAction::AdvanceRecurring { .. }]
    ));
}

#[test]
fn rebuilt_deadlines_keep_the_distance_to_the_wall_clock() {
    let plan = plan_recovery(
        &[RecoveryRecord {
            job: job_in(JobState::Scheduled, MissedPolicy::Hold, false),
            active_run: None,
        }],
        &inspector(IdentityStatus::Dead, false),
        timestamp(200),
        ElapsedInstant::from_nanos(1_000),
        "boot",
    )
    .ok()
    .expect("plan");
    assert_eq!(plan.deadlines.len(), 1);
    assert!(plan.deadlines[0].scheduled_for_utc == timestamp(300));
    assert_eq!(plan.deadlines[0].elapsed_due.as_nanos(), 100_000_001_000);
}

struct StartupJobs {
    fail: bool,
    applied: usize,
    cleaned: bool,
}

impl RecoveryStore for StartupJobs {
    fn load_nonterminal(&self) -> Result<Vec<RecoveryRecord>, RecoveryStoreError> {
        Ok(vec![RecoveryRecord {
            job: overdue_job(MissedPolicy::Hold, false),
            active_run: None,
        }])
    }

    fn apply_recovery(
        &mut self,
        actions: &Vec<RecoveryAction>,
        _now: UtcTimestamp,
    ) -> Result<(), RecoveryStoreError> {
        if self.fail {
            return Err(RecoveryStoreError("busy".to_owned()));
        }
        self.applied += actions.len();
        Ok(())
    }

    fn cleanup_recovery(&mut self, _now: UtcTimestamp) -> Result<(), RecoveryStoreError> {
        self.cleaned = true;
        Ok(())
    }
}

#[test]
fn startup_applies_the_plan_and_cleans_up() {
    let mut store = StartupJobs { fail: false, applied: 0, cleaned: false };
    let plan = reconcile_startup(
        &mut store,
        &inspector(IdentityStatus::Dead, false),
        timestamp(200),
        ElapsedInstant::from_nanos(0),
        "boot",
    )
    .ok()
    .expect("startup");
    assert_eq!(plan.actions.len(), 1);
    assert_eq!(store.applied, 1);
    assert!(store.cleaned);

    let mut broken = StartupJobs { fail: true, applied: 0, cleaned: false };
    assert!(matches!(
        reconcile_startup(
            &mut broken,
            &inspector(IdentityStatus::Dead, false),
            timestamp(200),
            ElapsedInstant::from_nanos(0),
            "boot",
        ),
        Err(StartupReconciliationError::Store(_))
    ));
    assert!(!broken.cleaned);
}

// Service lifecycle -----------------------------------------------------------------------------

struct FakeManager {
    available: bool,
    installed: bool,
    running: bool,
    fail_install: bool,
    fail_rollback: bool,
    installs: usize,
    uninstalls: usize,
}

impl FakeManager {
    fn available() -> FakeManager {
        FakeManager {
            available: true,
            installed: false,
            running: false,
            fail_install: false,
            fail_rollback: false,
            installs: 0,
            uninstalls: 0,
        }
    }

    fn unavailable() -> FakeManager {
        FakeManager { available: false, ..FakeManager::available() }
    }
}

impl ServiceManager for FakeManager {
    fn status(&self) -> Result<ServiceStatus, ServiceManagerError> {
        Ok(ServiceStatus {
            manager: "fake".to_owned(),
            availability: if self.available {
                ServiceAvailability::Available
            } else {
                ServiceAvailability::Unavailable
            },
            installed: self.installed,
            running: self.running,
            files: Vec::new(),
            guarantee: "test".to_owned(),
            detail: "test fixture".to_owned(),
        })
    }

    fn install(&mut self) -> Result<(), ServiceManagerError> {
        self.installs += 1;
        self.installed = true;
        if self.fail_install {
            return Err(ServiceManagerError::new("injected failure".to_owned()));
        }
        self.running = true;
        Ok(())
    }

    fn uninstall(&mut self) -> Result<(), ServiceManagerError> {
        self.uninstalls += 1;
        if self.fail_rollback {
            return Err(ServiceManagerError::new("stuck".to_owned()));
        }
        self.installed = false;
        self.running = false;
        Ok(())
    }
}

#[test]
fn unavailable_manager_never_attempts_install() {
    let mut manager = FakeManager::unavailable();
    assert!(matches!(
        install_service(&mut manager),
        Err(ServiceLifecycleError::Unavailable(_))
    ));
    assert_eq!(manager.installs, 0);
}

#[test]
fn partial_install_is_rolled_back() {
    let mut manager = FakeManager::available();
    manager.fail_install = true;
    assert!(matches!(
        install_service(&mut manager),
        Err(ServiceLifecycleError::Install(_))
    ));
    assert_eq!(manager.uninstalls, 1);
    assert!(!manager.installed);
}

#[test]
fn lifecycle_is_idempotent() {
    let mut manager = FakeManager::available();
    assert!(install_service(&mut manager).expect("install").changed);
    assert!(!install_service(&mut manager).expect("repeat install").changed);
    assert!(uninstall_service(&mut manager).expect("uninstall").changed);
    assert!(!uninstall_service(&mut manager).expect("repeat uninstall").changed);
}

#[test]
fn failed_rollback_is_reported_with_the_install_failure() {
    let mut manager = FakeManager::available();
    manager.fail_install = true;
    manager.fail_rollback = true;
    assert_eq!(
        install_service(&mut manager).err(),
        Some(ServiceLifecycleError::InstallRollback {
            install: "injected failure".to_owned(),
            rollback: "stuck".to_owned(),
        })
    );
}

// Submission ------------------------------------------------------------------------------------

struct Submitted {
    count: Cell<usize>,
    fail: bool,
}

impl SubmissionStore for Submitted {
    fn create_job(&mut self, _job: &Job) -> Result<(), SubmissionStoreError> {
        if self.fail {
            return Err(SubmissionStoreError("full".to_owned()));
        }
        self.count.set(self.count.get() + 1);
        Ok(())
    }
}

struct Ack {
    calls: Cell<usize>,
    fail: bool,
}

impl SupervisorAcknowledger for Ack {
    fn acknowledge(&mut self, _job_id: JobId, _revision: Revision) -> Result<(), SupervisorAckError> {
        self.calls.set(self.calls.get() + 1);
        if self.fail {
            Err(SupervisorAckError("socket unavailable".to_owned()))
        } else {
            Ok(())
        }
    }
}

fn submitted_job() -> Job {
    Job::new(
        timestamp(100),
        Schedule::one_shot_relative(DurationSeconds::new(30).expect("duration"), timestamp(130)),
        MissedPolicy::Hold,
        RuntimeTier::Session,
        execution(),
        501,
    )
    .ok()
    .expect("job")
}

#[test]
fn dry_run_never_calls_storage_or_supervisor() {
    let mut store = Submitted { count: Cell::new(0), fail: false };
    let mut ack = Ack { calls: Cell::new(0), fail: false };
    let outcome = submit_job(&mut store, &mut ack, submitted_job(), true).ok().expect("dry-run");
    assert!(matches!(outcome, SubmissionOutcome::DryRun(_)));
    assert_eq!(store.count.get(), 0);
    assert_eq!(ack.calls.get(), 0);
}

#[test]
fn committed_job_reports_missing_ack_without_rolling_back() {
    let mut store = Submitted { count: Cell::new(0), fail: false };
    let mut ack = Ack { calls: Cell::new(0), fail: true };
    let outcome = submit_job(&mut store, &mut ack, submitted_job(), false).ok().expect("commit");
    assert!(matches!(outcome, SubmissionOutcome::CommittedUnsupervised { .. }));
    assert_eq!(store.count.get(), 1);
    assert_eq!(ack.calls.get(), 1);
}

#[test]
fn acknowledged_commit_reports_a_supervised_job() {
    let mut store = Submitted { count: Cell::new(0), fail: false };
    let mut ack = Ack { calls: Cell::new(0), fail: false };
    let outcome = submit_job(&mut store, &mut ack, submitted_job(), false).ok().expect("commit");
    assert!(matches!(outcome, SubmissionOutcome::Supervised(_)));
    assert_eq!(store.count.get(), 1);
    assert_eq!(ack.calls.get(), 1);
}

#[test]
fn refused_jobs_are_never_acknowledged() {
    let mut store = Submitted { count: Cell::new(0), fail: true };
    let mut ack = Ack { calls: Cell::new(0), fail: false };
    assert!(matches!(
        submit_job(&mut store, &mut ack, submitted_job(), false),
        Err(SubmitError::Store(error)) if error == SubmissionStoreError("full".to_owned())
    ));
    assert_eq!(ack.calls.get(), 0);
}
