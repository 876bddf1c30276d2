//! Output models shared by human and JSON renderers.
use vstd::prelude::*;

use crate::application::history::RunOutput;
use crate::application::submit::SubmissionOutcome;
use crate::domain::environment::{Entries, Environment, SecretString};
use crate::domain::execution::{optional_text, ExecutionMode, ExecutionModel, ExecutionSpec};
use crate::domain::id::id_text;
use crate::domain::job::{Job, JobModel, JobSnapshot};
use crate::domain::primitives::{UtcTimestamp, NANOS_PER_SECOND};
use crate::domain::run::{
    copy_outcome, outcome_model, IdentityModel, ProcessIdentitySnapshot, Run, RunModel, RunOutcome,
    RunSnapshot,
};
use crate::domain::schedule::{RuntimeTier, Schedule};
use crate::domain::state::{JobState, RunState};
use crate::infrastructure::process::{
    classified, IdentityStatus, NativeProcessInspector, ProcessError, ProcessTable,
};
use crate::text::{copy_text, copy_texts, texts};

verus! {

broadcast use vstd::seq::group_seq_axioms;

// ---------------------------------------------------------------------------------------------
// Submissions
// ---------------------------------------------------------------------------------------------
/// What is shown of a submission.
pub struct SubmissionView {
    pub job_id: String,
    pub state: JobState,
    pub schedule: Schedule,
    pub next_due_utc: UtcTimestamp,
    pub runtime_tier: RuntimeTier,
    pub supervised: bool,
    pub dry_run: bool,
}

impl SubmissionView {
    /// What is shown of a submission.
    pub fn from_outcome(outcome: &SubmissionOutcome) -> (r: SubmissionView)
        ensures
            ({
                let job = outcome.spec_job()@;
                &&& r.job_id@ == id_text(job.id@)
                &&& r.state == job.state
                &&& r.schedule@ == job.schedule
                &&& r.next_due_utc == job.next_due_utc
                &&& r.runtime_tier == job.runtime_tier
                &&& r.supervised == (outcome is Supervised)
                &&& r.dry_run == (outcome is DryRun)
            }),
    {
        let snapshot: JobSnapshot = outcome.job().snapshot();
        SubmissionView {
            job_id: snapshot.id.to_string(),
            state: snapshot.state,
            schedule: snapshot.schedule,
            next_due_utc: snapshot.next_due_utc,
            runtime_tier: snapshot.runtime_tier,
            supervised: outcome.is_supervised(),
            dry_run: outcome.is_dry_run(),
        }
    }
}

// ---------------------------------------------------------------------------------------------
// Jobs
// ---------------------------------------------------------------------------------------------
/// What is shown of a command: the names of its environment variables, never their values.
#[derive(Debug, PartialEq, Eq)]
pub struct ExecutionView {
    pub mode: ExecutionMode,
    pub argv: Vec<String>,
    pub working_directory: String,
    pub environment_keys: Vec<String>,
    pub shell_path: Option<String>,
}

/// The names of variables.
pub open spec fn names_of(entries: Entries) -> Seq<Seq<char>> {
    entries.map_values(|entry: (Seq<char>, Seq<char>)| entry.0)
}

/// The view shows the command.
pub open spec fn shows_command(view: ExecutionView, command: ExecutionModel) -> bool {
    &&& view.mode == command.mode
    &&& texts(view.argv@) == command.argv
    &&& view.working_directory@ == command.working_directory
    &&& texts(view.environment_keys@) == names_of(command.environment)
    &&& optional_text(view.shell_path) == command.shell_path
}

fn environment_names(environment: &Environment) -> (r: Vec<String>)
    ensures
        texts(r@) == names_of(environment@),
{
    let entries: Vec<(&str, &SecretString)> = environment.iter();
    let mut names: Vec<String> = Vec::new();
    let mut index: usize = 0;
    while index < entries.len()
        invariant
            index <= entries@.len(),
            entries@.len() == environment@.len(),
            forall|i: int|
                0 <= i < entries@.len() ==> (#[trigger] entries@[i]).0@ == environment@[i].0,
            names@.len() == index,
            forall|i: int| 0 <= i < index ==> (#[trigger] names@[i])@ == environment@[i].0,
        decreases entries@.len() - index,
    {
        names.push(copy_text(entries[index].0));
        index += 1;
    }
    assert(texts(names@) =~= names_of(environment@));
    names
}

impl ExecutionView {
    /// What is shown of the command of a job.
    pub fn from_job(job: &Job) -> (r: ExecutionView)
        ensures
            shows_command(r, job@.execution),
    {
        let execution: &ExecutionSpec = job.execution();
        let shell_path: Option<String> = match execution.shell_path() {
            Some(path) => Some(copy_text(path)),
            None => None,
        };
        ExecutionView {
            mode: execution.mode(),
            argv: copy_texts(execution.argv()),
            working_directory: copy_text(execution.working_directory()),
            environment_keys: environment_names(execution.environment()),
            shell_path,
        }
    }
}

/// What is shown of a job.
pub struct JobView {
    pub job_id: String,
    pub name: Option<String>,
    pub description: Option<String>,
    pub schedule: Schedule,
    pub next_due_utc: UtcTimestamp,
    pub remaining_seconds: i64,
    pub state: JobState,
    pub runtime_tier: RuntimeTier,
    pub execution: ExecutionView,
    pub active_run_id: Option<String>,
}

/// Whole seconds from one instant to another, cut towards zero.
pub open spec fn whole_seconds(from: int, to: int) -> int {
    let span = to - from;
    if span >= 0 {
        span / (NANOS_PER_SECOND as int)
    } else {
        -((-span) / (NANOS_PER_SECOND as int))
    }
}

/// Whole seconds from one instant to another, cut towards zero.
pub fn remaining_seconds(from: UtcTimestamp, to: UtcTimestamp) -> (r: i64)
    ensures
        r == whole_seconds(from@, to@),
{
    let start: i128 = from.as_nanosecond();
    let end: i128 = to.as_nanosecond();
    if end >= start {
        let span: u128 = (end - start) as u128;
        (span / 1_000_000_000) as i64
    } else {
        let span: u128 = (start - end) as u128;
        let seconds: i64 = (span / 1_000_000_000) as i64;
        0 - seconds
    }
}

/// The view shows the job.
pub open spec fn shows_job(view: JobView, job: JobModel, now: int) -> bool {
    &&& view.job_id@ == id_text(job.id@)
    &&& optional_text(view.name) == job.name
    &&& optional_text(view.description) == job.description
    &&& view.schedule@ == job.schedule
    &&& view.next_due_utc == job.next_due_utc
    &&& view.remaining_seconds == whole_seconds(now, job.next_due_utc@)
    &&& view.state == job.state
    &&& view.runtime_tier == job.runtime_tier
    &&& shows_command(view.execution, job.execution)
    &&& view.active_run_id is None
}

impl JobView {
    /// What is shown of a job.
    pub fn from_job(job: &Job, now: UtcTimestamp) -> (r: JobView)
        ensures
            shows_job(r, job@, now@),
    {
        let snapshot: JobSnapshot = job.snapshot();
        let name: Option<String> = match &snapshot.name {
            Some(name) => Some(copy_text(name.as_str())),
            None => None,
        };
        let description: Option<String> = match &snapshot.description {
            Some(description) => Some(copy_text(description.as_str())),
            None => None,
        };
        JobView {
            job_id: snapshot.id.to_string(),
            name,
            description,
            remaining_seconds: remaining_seconds(now, snapshot.next_due_utc),
            schedule: snapshot.schedule,
            next_due_utc: snapshot.next_due_utc,
            state: snapshot.state,
            runtime_tier: snapshot.runtime_tier,
            execution: ExecutionView::from_job(job),
            active_run_id: None,
        }
    }
}

/// What is shown of a job does not depend on the values of its environment variables.
pub proof fn lemma_view_hides_values(first: ExecutionModel, second: ExecutionModel, view: ExecutionView)
    requires
        names_of(first.environment) == names_of(second.environment),
        second == (ExecutionModel { environment: second.environment, ..first }),
    ensures
        shows_command(view, first) == shows_command(view, second),
{
}

// ---------------------------------------------------------------------------------------------
// Runs
// ---------------------------------------------------------------------------------------------
/// What is shown of a run.
pub struct RunView {
    pub run_id: String,
    pub job_id: String,
    pub sequence: u64,
    pub scheduled_for_utc: UtcTimestamp,
    pub started_at_utc: Option<UtcTimestamp>,
    pub finished_at_utc: Option<UtcTimestamp>,
    pub state: RunState,
    pub outcome: Option<RunOutcome>,
    pub stdout_path: Option<String>,
    pub stderr_path: Option<String>,
}

/// The view shows the run.
pub open spec fn shows_run(view: RunView, run: RunModel) -> bool {
    &&& view.run_id@ == id_text(run.id@)
    &&& view.job_id@ == id_text(run.job_id@)
    &&& view.sequence == run.sequence@
    &&& view.scheduled_for_utc == run.scheduled_for_utc
    &&& view.started_at_utc == run.started_at_utc
    &&& view.finished_at_utc == run.finished_at_utc
    &&& view.state == run.state
    &&& outcome_model(view.outcome) == run.outcome
    &&& optional_text(view.stdout_path) == run.stdout_path
    &&& optional_text(view.stderr_path) == run.stderr_path
}

impl RunView {
    /// What is shown of a run.
    pub fn from_run(run: &Run) -> (r: RunView)
        ensures
            shows_run(r, run@),
    {
        let snapshot: RunSnapshot = run.snapshot();
        RunView {
            run_id: snapshot.id.to_string(),
            job_id: snapshot.job_id.to_string(),
            sequence: snapshot.sequence.get(),
            scheduled_for_utc: snapshot.scheduled_for_utc,
            started_at_utc: snapshot.started_at_utc,
            finished_at_utc: snapshot.finished_at_utc,
            state: snapshot.state,
            outcome: snapshot.outcome,
            stdout_path: snapshot.stdout_path,
            stderr_path: snapshot.stderr_path,
        }
    }
}

/// What is shown of a live process.
#[derive(Debug, PartialEq, Eq)]
pub struct ProcessView {
    pub job_id: String,
    pub run_id: String,
    pub role: &'static str,
    pub pid: u32,
    pub process_group_id: i32,
    pub state: RunState,
}

/// What is shown of a live process, with its texts as character sequences.
pub struct ProcessModel {
    pub job_id: Seq<char>,
    pub run_id: Seq<char>,
    pub role: Seq<char>,
    pub pid: u32,
    pub process_group_id: i32,
    pub state: RunState,
}

impl View for ProcessView {
    type V = ProcessModel;

    open spec fn view(&self) -> ProcessModel {
        ProcessModel {
            job_id: self.job_id@,
            run_id: self.run_id@,
            role: self.role@,
            pid: self.pid,
            process_group_id: self.process_group_id,
            state: self.state,
        }
    }
}

/// What was found out about the processes of a run, as far as it has them.
#[derive(Clone, Copy, Debug, PartialEq, Eq, Structural)]
pub struct RunProcesses {
    pub monitor: Option<IdentityStatus>,
    pub command: Option<IdentityStatus>,
}

/// The process of a run in a role, if the run has it and it is alive.
pub open spec fn live_process(
    run: RunModel,
    role: Seq<char>,
    identity: Option<IdentityModel>,
    status: Option<IdentityStatus>,
) -> Seq<ProcessModel> {
    match identity {
        Some(process) => if status == Some(IdentityStatus::Alive) {
            seq![
                ProcessModel {
                    job_id: id_text(run.job_id@),
                    run_id: id_text(run.id@),
                    role,
                    pid: process.pid,
                    process_group_id: process.process_group_id,
                    state: run.state,
                },
            ]
        } else {
            Seq::empty()
        },
        None => Seq::empty(),
    }
}

/// The live processes of runs: the monitor of each, then its command.
pub open spec fn listed(runs: Seq<Run>, seen: Seq<RunProcesses>) -> Seq<ProcessModel>
    decreases runs.len(),
{
    if runs.len() == 0 || seen.len() == 0 {
        Seq::empty()
    } else {
        let run = runs.last()@;
        listed(runs.drop_last(), seen.drop_last()) + live_process(
            run,
            "monitor"@,
            run.monitor_identity,
            seen.last().monitor,
        ) + live_process(run, "command"@, run.command_identity, seen.last().command)
    }
}

/// The views of processes as models.
pub open spec fn process_models(views: Seq<ProcessView>) -> Seq<ProcessModel> {
    views.map_values(|view: ProcessView| view@)
}

fn push_process(
    processes: &mut Vec<ProcessView>,
    run: &Run,
    role: &'static str,
    identity: Option<&ProcessIdentitySnapshot>,
    status: Option<IdentityStatus>,
)
    ensures
        match identity {
            Some(process) => process_models(final(processes)@) == process_models(old(processes)@)
                + live_process(run@, role@, Some(process@), status),
            None => final(processes)@ == old(processes)@,
        },
{
    match identity {
        Some(process) => {
            let ghost before = processes@;
            if status == Some(IdentityStatus::Alive) {
                processes.push(
                    ProcessView {
                        job_id: run.job_id().to_string(),
                        run_id: run.id().to_string(),
                        role,
                        pid: process.pid,
                        process_group_id: process.process_group_id,
                        state: run.state(),
                    },
                );
            }
            assert(process_models(processes@) =~= process_models(before) + live_process(
                run@,
                role@,
                Some(process@),
                status,
            ));
        },
        None => {},
    }
}

/// The live processes of runs, given what was found out about each.
pub fn processes_of(runs: &Vec<Run>, seen: &Vec<RunProcesses>) -> (r: Vec<ProcessView>)
    requires
        runs@.len() == seen@.len(),
    ensures
        process_models(r@) == listed(runs@, seen@),
{
    let mut processes: Vec<ProcessView> = Vec::new();
    let mut index: usize = 0;
    assert(runs@.take(0) =~= Seq::<Run>::empty());
    assert(process_models(processes@) =~= Seq::<ProcessModel>::empty());
    while index < runs.len()
        invariant
            index <= runs@.len() == seen@.len(),
            process_models(processes@) == listed(
                runs@.take(index as int),
                seen@.take(index as int),
            ),
        decreases runs@.len() - index,
    {
        let run: &Run = &runs[index];
        proof {
            assert(runs@.take(index + 1).drop_last() =~= runs@.take(index as int));
            assert(seen@.take(index + 1).drop_last() =~= seen@.take(index as int));
            assert(runs@.take(index + 1).last() == runs@[index as int]);
            assert(seen@.take(index + 1).last() == seen@[index as int]);
        }
        let ghost first = process_models(processes@);
        push_process(&mut processes, run, "monitor", run.monitor_identity(), seen[index].monitor);
        assert(process_models(processes@) =~= first + live_process(
            run@,
            "monitor"@,
            run@.monitor_identity,
            seen@[index as int].monitor,
        ));
        let ghost second = process_models(processes@);
        push_process(&mut processes, run, "command", run.command_identity(), seen[index].command);
        assert(process_models(processes@) =~= second + live_process(
            run@,
            "command"@,
            run@.command_identity,
            seen@[index as int].command,
        ));
        index += 1;
    }
    assert(runs@.take(runs@.len() as int) =~= runs@);
    assert(seen@.take(seen@.len() as int) =~= seen@);
    processes
}

/// The result is what looking at the process with an identity gives, where there is one.
pub open spec fn looked_at<Table: ProcessTable>(
    inspector: NativeProcessInspector<Table>,
    identity: Option<IdentityModel>,
    r: Result<Option<IdentityStatus>, ProcessError>,
) -> bool {
    match identity {
        None => r == Ok::<Option<IdentityStatus>, ProcessError>(None),
        Some(expected) => match r {
            Ok(Some(status)) => classified(inspector, expected, Ok(status)),
            Ok(None) => false,
            Err(error) => classified(inspector, expected, Err(error)),
        },
    }
}

/// Both processes of a run were looked at, with these answers.
pub open spec fn run_looked_at<Table: ProcessTable>(
    inspector: NativeProcessInspector<Table>,
    run: Run,
    seen: RunProcesses,
) -> bool {
    &&& looked_at(inspector, run@.monitor_identity, Ok(seen.monitor))
    &&& looked_at(inspector, run@.command_identity, Ok(seen.command))
}

/// Both processes of a run were looked at.
pub open spec fn was_looked_at<Table: ProcessTable>(
    inspector: NativeProcessInspector<Table>,
    run: Run,
) -> bool {
    exists|seen: RunProcesses| run_looked_at(inspector, run, seen)
}

/// Looking at the processes of a run failed.
pub open spec fn look_failed<Table: ProcessTable>(
    inspector: NativeProcessInspector<Table>,
    run: Run,
    error: ProcessError,
) -> bool {
    ||| looked_at(inspector, run@.monitor_identity, Err(error))
    ||| looked_at(inspector, run@.command_identity, Err(error))
}

/// The result is what looking at the processes of runs gives: the live ones, or the first failure.
pub open spec fn processes_seen<Table: ProcessTable>(
    inspector: NativeProcessInspector<Table>,
    runs: Seq<Run>,
    r: Result<Vec<ProcessView>, ProcessError>,
) -> bool {
    match r {
        Ok(processes) => exists|seen: Seq<RunProcesses>|
            {
                &&& seen.len() == runs.len()
                &&& forall|i: int|
                    0 <= i < runs.len() ==> run_looked_at(inspector, #[trigger] runs[i], seen[i])
                &&& process_models(processes@) == #[trigger] listed(runs, seen)
            },
        Err(error) => exists|failed: int|
            {
                &&& 0 <= failed < runs.len()
                &&& #[trigger] look_failed(inspector, runs[failed], error)
                &&& forall|i: int|
                    0 <= i < failed ==> was_looked_at(inspector, #[trigger] runs[i])
            },
    }
}

fn look_at<Table: ProcessTable>(
    inspector: &NativeProcessInspector<Table>,
    identity: Option<&ProcessIdentitySnapshot>,
) -> (r: Result<Option<IdentityStatus>, ProcessError>)
    ensures
        looked_at(
            *inspector,
            match identity {
                Some(process) => Some(process@),
                None => None,
            },
            r,
        ),
{
    match identity {
        Some(process) => match inspector.classify_process(process) {
            Ok(status) => Ok(Some(status)),
            Err(error) => Err(error),
        },
        None => Ok(None),
    }
}

/// The live processes of runs: the monitor of each, then its command, as far as they are still
/// the same processes.
pub fn live_processes<Table: ProcessTable>(
    inspector: &NativeProcessInspector<Table>,
    runs: &Vec<Run>,
) -> (r: Result<Vec<ProcessView>, ProcessError>)
    ensures
        processes_seen(*inspector, runs@, r),
{
    let mut seen: Vec<RunProcesses> = Vec::new();
    let mut index: usize = 0;
    while index < runs.len()
        invariant
            index <= runs@.len(),
            seen@.len() == index,
            forall|i: int|
                0 <= i < index ==> run_looked_at(*inspector, #[trigger] runs@[i], seen@[i]),
        decreases runs@.len() - index,
    {
        let monitor: Option<IdentityStatus> = match look_at(
            inspector,
            runs[index].monitor_identity(),
        ) {
            Ok(status) => status,
            Err(error) => {
                assert(look_failed(*inspector, runs@[index as int], error));
                return Err(error);
            },
        };
        let command: Option<IdentityStatus> = match look_at(
            inspector,
            runs[index].command_identity(),
        ) {
            Ok(status) => status,
            Err(error) => {
                assert(look_failed(*inspector, runs@[index as int], error));
                return Err(error);
            },
        };
        seen.push(RunProcesses { monitor, command });
        index += 1;
    }
    Ok(processes_of(runs, &seen))
}

/// What is shown of the captured output of a run, with the streams as texts.
#[derive(Debug, PartialEq, Eq)]
pub struct RunOutputView {
    pub run_id: String,
    pub job_id: String,
    pub state: RunState,
    pub outcome: Option<RunOutcome>,
    pub stdout_truncated: bool,
    pub stderr_truncated: bool,
    pub stdout: String,
    pub stderr: String,
}

impl RunOutputView {
    /// What is shown of the captured output of a run.
    pub fn from_output(output: &RunOutput) -> (r: RunOutputView)
        ensures
            r.run_id@ == id_text(output.run_id@),
            r.job_id@ == id_text(output.job_id@),
            r.state == output.state,
            outcome_model(r.outcome) == outcome_model(output.outcome),
            r.stdout_truncated == output.stdout.truncated,
            r.stderr_truncated == output.stderr.truncated,
            r.stdout@ == crate::outside::text_of_bytes(output.stdout.content@),
            r.stderr@ == crate::outside::text_of_bytes(output.stderr.content@),
    {
        RunOutputView {
            run_id: output.run_id.to_string(),
            job_id: output.job_id.to_string(),
            state: output.state,
            outcome: copy_outcome(&output.outcome),
            stdout_truncated: output.stdout.truncated,
            stderr_truncated: output.stderr.truncated,
            stdout: crate::outside::lossy_text(&output.stdout.content),
            stderr: crate::outside::lossy_text(&output.stderr.content),
        }
    }
}

} // verus!
