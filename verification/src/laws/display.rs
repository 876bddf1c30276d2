//! What is shown of jobs and runs.
use crate::application::history::RunOutput;
use crate::application::submit::SubmissionOutcome;
use crate::cli::args::ColorArg;
use crate::cli::human::{format_outcome, job_line, remaining, schedule, signal_name, HumanRenderer};
use crate::cli::view::{
    listed, names_of, process_models, processes_of, remaining_seconds, JobView, ProcessView,
    RunProcesses, RunView, SubmissionView,
};
use crate::domain::duration::duration_text;
use crate::domain::id::id_text;
use crate::domain::job::Job;
use crate::domain::primitives::UtcTimestamp;
use crate::domain::run::{Run, RunOutcome};
use crate::domain::schedule::{Schedule, ScheduleModel};
use crate::domain::state::{JobState, RunState};
use crate::infrastructure::process::IdentityStatus;
use crate::outside::text_of_bytes;
use crate::text::{decimal, decimal_int, joined, texts};
use vstd::prelude::*;

verus! {

broadcast use vstd::seq::group_seq_axioms;

// ---------------------------------------------------------------------------------------------
// Views
// ---------------------------------------------------------------------------------------------
/// A job is shown with its own fields; of its environment only the names are.
pub proof fn lemma_job_is_shown_as_it_is(job: &Job, now: UtcTimestamp, r: JobView)
    requires
        call_ensures(JobView::from_job, (job, now), r),
    ensures
        r.job_id@ == id_text(job@.id@),
        r.name matches Some(name) ==> job@.name == Some(name@),
        r.name is None <==> job@.name is None,
        r.description matches Some(note) ==> job@.description == Some(note@),
        r.description is None <==> job@.description is None,
        r.schedule@ == job@.schedule,
        r.next_due_utc == job@.next_due_utc,
        r.state == job@.state,
        r.runtime_tier == job@.runtime_tier,
        r.execution.mode == job@.execution.mode,
        texts(r.execution.argv@) == job@.execution.argv,
        r.execution.working_directory@ == job@.execution.working_directory,
        r.execution.environment_keys@.len() == job@.execution.environment.len(),
        forall|i: int|
            0 <= i < r.execution.environment_keys@.len() ==> (
            #[trigger] r.execution.environment_keys@[i])@ == job@.execution.environment[i].0,
{
    let keys = r.execution.environment_keys@;
    let environment = job@.execution.environment;
    assert(texts(keys).len() == keys.len());
    assert(names_of(environment).len() == environment.len());
    assert forall|i: int| 0 <= i < r.execution.environment_keys@.len() implies (
    #[trigger] r.execution.environment_keys@[i])@ == job@.execution.environment[i].0 by {
        assert(texts(keys)[i] == keys[i]@);
        assert(names_of(environment)[i] == environment[i].0);
    }
}

/// The time that remains is counted in whole seconds, cut off towards zero; what is past counts back.
pub proof fn lemma_remaining_time_is_in_whole_seconds(
    from: UtcTimestamp,
    to: UtcTimestamp,
    r: i64,
)
    requires
        call_ensures(remaining_seconds, (from, to), r),
    ensures
        to@ >= from@ ==> r >= 0 && r * 1_000_000_000 <= to@ - from@ < (r + 1) * 1_000_000_000,
        to@ < from@ ==> r <= 0 && (r - 1) * 1_000_000_000 < to@ - from@ <= r * 1_000_000_000,
{
}

/// A run is shown with its own fields.
pub proof fn lemma_run_is_shown_as_it_is(run: &Run, r: RunView)
    requires
        call_ensures(RunView::from_run, (run,), r),
    ensures
        r.run_id@ == id_text(run@.id@),
        r.job_id@ == id_text(run@.job_id@),
        r.sequence == run@.sequence@,
        r.scheduled_for_utc == run@.scheduled_for_utc,
        r.started_at_utc == run@.started_at_utc,
        r.finished_at_utc == run@.finished_at_utc,
        r.state == run@.state,
        r.outcome matches Some(outcome) ==> run@.outcome == Some(outcome@),
        r.outcome is None <==> run@.outcome is None,
        r.stdout_path matches Some(path) ==> run@.stdout_path == Some(path@),
        r.stderr_path matches Some(path) ==> run@.stderr_path == Some(path@),
{
}

/// A submission is shown with the job that was submitted, and as what became of it.
pub proof fn lemma_submission_is_shown_as_it_went(outcome: &SubmissionOutcome, r: SubmissionView)
    requires
        call_ensures(SubmissionView::from_outcome, (outcome,), r),
    ensures
        r.job_id@ == id_text(outcome.spec_job()@.id@),
        r.state == outcome.spec_job()@.state,
        r.next_due_utc == outcome.spec_job()@.next_due_utc,
        r.runtime_tier == outcome.spec_job()@.runtime_tier,
        r.supervised <==> outcome is Supervised,
        r.dry_run <==> outcome is DryRun,
{
}

/// A process is listed exactly where it was seen alive: of one run, the monitor first and then the command.
pub proof fn lemma_live_processes_are_listed(
    runs: &Vec<Run>,
    seen: &Vec<RunProcesses>,
    r: Vec<ProcessView>,
)
    requires
        call_ensures(processes_of, (runs, seen), r),
        runs@.len() == 1,
        seen@.len() == 1,
    ensures
        ({
            let run = runs@[0]@;
            let monitor = run.monitor_identity is Some && seen@[0].monitor == Some(
                IdentityStatus::Alive,
            );
            let command = run.command_identity is Some && seen@[0].command == Some(
                IdentityStatus::Alive,
            );
            &&& r@.len() == (if monitor {
                1int
            } else {
                0int
            }) + (if command {
                1int
            } else {
                0int
            })
            &&& monitor ==> r@[0].role@ == "monitor"@ && r@[0].pid == run.monitor_identity->0.pid
                && r@[0].run_id@ == id_text(run.id@) && r@[0].job_id@ == id_text(run.job_id@)
                && r@[0].process_group_id == run.monitor_identity->0.process_group_id
                && r@[0].state == run.state
            &&& command ==> r@.last().role@ == "command"@ && r@.last().pid
                == run.command_identity->0.pid && r@.last().run_id@ == id_text(run.id@)
                && r@.last().process_group_id == run.command_identity->0.process_group_id
        }),
{
    let all = listed(runs@, seen@);
    assert(runs@.drop_last().len() == 0);
    assert(listed(runs@.drop_last(), seen@.drop_last()).len() == 0);
    assert(process_models(r@) == all);
    assert(r@.len() == all.len());
    if r@.len() > 0 {
        assert(process_models(r@)[0] == r@[0]@);
        assert(process_models(r@)[r@.len() - 1] == r@.last()@);
    }
}

/// The processes of several runs are listed one run after the other.
pub proof fn lemma_processes_are_listed_run_by_run(
    earlier: &Vec<Run>,
    earlier_seen: &Vec<RunProcesses>,
    last: &Vec<Run>,
    last_seen: &Vec<RunProcesses>,
    all: &Vec<Run>,
    all_seen: &Vec<RunProcesses>,
    first_part: Vec<ProcessView>,
    second_part: Vec<ProcessView>,
    r: Vec<ProcessView>,
)
    requires
        earlier@.len() == earlier_seen@.len(),
        last@.len() == 1 && last_seen@.len() == 1,
        all@ == earlier@ + last@,
        all_seen@ == earlier_seen@ + last_seen@,
        call_ensures(processes_of, (earlier, earlier_seen), first_part),
        call_ensures(processes_of, (last, last_seen), second_part),
        call_ensures(processes_of, (all, all_seen), r),
    ensures
        process_models(r@) == process_models(first_part@) + process_models(second_part@),
{
    assert(all@.drop_last() =~= earlier@);
    assert(all_seen@.drop_last() =~= earlier_seen@);
    assert(last@.drop_last().len() == 0);
    assert(listed(last@.drop_last(), last_seen@.drop_last()).len() == 0);
    assert(process_models(r@) =~= process_models(first_part@) + process_models(second_part@));
}

// ---------------------------------------------------------------------------------------------
// Words
// ---------------------------------------------------------------------------------------------
/// The time that remains is shown in its two largest units; what is past is due.
pub proof fn lemma_remaining_time_in_words(seconds: i64, r: String, hours: nat, minutes: nat, rest: nat)
    requires
        call_ensures(remaining, (seconds,), r),
        minutes < 60 && rest < 60,
    ensures
        seconds <= 0 ==> r@ == "due"@,
        seconds == rest && rest > 0 ==> r@ == decimal(rest) + "s"@,
        seconds == minutes * 60 + rest && minutes > 0 ==> r@ == decimal(minutes) + "m "@ + decimal(
            rest,
        ) + "s"@,
        seconds == hours * 3600 + minutes * 60 + rest && hours > 0 ==> r@ == decimal(hours) + "h "@
            + decimal(minutes) + "m"@,
{
    if seconds == hours * 3600 + minutes * 60 + rest && hours > 0 {
        assert(seconds as int / 3600 == hours && (seconds as int % 3600) / 60 == minutes);
    }
    if seconds == minutes * 60 + rest && minutes > 0 {
        assert(seconds as int / 60 == minutes && seconds as int % 60 == rest);
    }
}

/// An outcome is shown with its kind and its detail.
pub proof fn lemma_outcome_in_words(outcome: &RunOutcome, r: String)
    requires
        call_ensures(format_outcome, (outcome,), r),
    ensures
        *outcome matches RunOutcome::Exit(code) ==> r@ == "exit "@ + decimal_int(code as int),
        *outcome matches RunOutcome::Failure(reason) ==> r@ == "failure: "@ + reason@,
        *outcome matches RunOutcome::Interrupted(reason) ==> r@ == "interrupted: "@ + reason@,
        *outcome matches RunOutcome::Cancelled(reason) ==> r@ == "cancelled: "@ + reason@,
        *outcome == RunOutcome::Signal(9) ==> r@ == "signal "@ + decimal_int(9) + " ("@
            + "SIGKILL"@ + ")"@,
        *outcome == RunOutcome::Signal(15) ==> r@ == "signal "@ + decimal_int(15) + " ("@
            + "SIGTERM"@ + ")"@,
{
}

/// These signals have names.
pub proof fn lemma_signals_with_names(signal: i32, r: Option<&'static str>)
    requires
        call_ensures(signal_name, (signal,), r),
    ensures
        signal == 1 ==> (r matches Some(name) && name@ == "SIGHUP"@),
        signal == 2 ==> (r matches Some(name) && name@ == "SIGINT"@),
        signal == 3 ==> (r matches Some(name) && name@ == "SIGQUIT"@),
        signal == 9 ==> (r matches Some(name) && name@ == "SIGKILL"@),
        signal == 15 ==> (r matches Some(name) && name@ == "SIGTERM"@),
        r is Some ==> signal == 1 || signal == 2 || signal == 3 || signal == 9 || signal == 15,
{
}

/// A schedule is shown as it was asked for.
pub proof fn lemma_schedule_in_words(value: &Schedule, r: String)
    requires
        call_ensures(schedule, (value,), r),
    ensures
        value@ matches ScheduleModel::OneShotRelative { duration, .. } ==> r@ == "after "@
            + duration_text(duration@),
        value@ matches ScheduleModel::RecurringInterval { interval, .. } ==> r@ == "every "@
            + duration_text(interval@),
        value@ matches ScheduleModel::OneShotAbsolute { original_input, timezone, .. } ==> r@
            == original_input + " ("@ + timezone + ")"@,
{
}

/// The word for a job state.
pub open spec fn word_of(state: JobState) -> Seq<char> {
    match state {
        JobState::Scheduled => "Scheduled"@,
        JobState::Waiting => "Waiting"@,
        JobState::Starting => "Starting"@,
        JobState::Running => "Running"@,
        JobState::CancelRequested => "CancelRequested"@,
        JobState::Succeeded => "Succeeded"@,
        JobState::Failed => "Failed"@,
        JobState::Cancelled => "Cancelled"@,
        JobState::Interrupted => "Interrupted"@,
        JobState::Missed => "Missed"@,
    }
}

/// A state is shown as a word, in colour only where colours are wanted: success in green, a cancellation in
/// yellow, and any other end in red.
pub proof fn lemma_states_in_words(renderer: &HumanRenderer, state: JobState, r: String)
    requires
        call_ensures(HumanRenderer::state, (renderer, state), r),
    ensures
        !renderer.color ==> r@ == word_of(state),
        renderer.color && state == JobState::Succeeded ==> r@ == "\x1b["@ + decimal(32) + "m"@
            + "Succeeded"@ + "\x1b[0m"@,
        renderer.color && state == JobState::Cancelled ==> r@ == "\x1b["@ + decimal(33) + "m"@
            + "Cancelled"@ + "\x1b[0m"@,
        renderer.color && state == JobState::Failed ==> r@ == "\x1b["@ + decimal(31) + "m"@
            + "Failed"@ + "\x1b[0m"@,
        renderer.color && state == JobState::Missed ==> r@ == "\x1b["@ + decimal(31) + "m"@
            + "Missed"@ + "\x1b[0m"@,
        renderer.color && state == JobState::Interrupted ==> r@ == "\x1b["@ + decimal(31) + "m"@
            + "Interrupted"@ + "\x1b[0m"@,
{
}

/// Colours are used where they are asked for, and by default on a terminal.
pub proof fn lemma_colours_are_for_terminals(color: ColorArg, terminal: bool, r: HumanRenderer)
    requires
        call_ensures(HumanRenderer::new, (color, terminal), r),
    ensures
        color == ColorArg::Always ==> r.color,
        color == ColorArg::Never ==> !r.color,
        color == ColorArg::Auto ==> r.color == terminal,
{
}

/// The text, or a dash where there is none.
pub open spec fn text_or_dash(text: Option<String>) -> Seq<char> {
    match text {
        Some(inner) => inner@,
        None => "-"@,
    }
}

/// A job has one line of the table, with its identifier, its state, when it is due and its name.
pub open spec fn line_of_job(job: JobView, due: Seq<char>, remaining: Seq<char>) -> Seq<char> {
    job.job_id@ + "\t"@ + word_of(job.state) + "\t"@ + due + "\t"@ + remaining + "\t"@
        + text_or_dash(job.name)
}

/// The table of jobs has a heading and one line for each job, in the order of the jobs; without jobs it
/// says so.
pub proof fn lemma_jobs_in_a_table(
    renderer: &HumanRenderer,
    jobs: &Vec<JobView>,
    dues: &Vec<String>,
    r: String,
    only: String,
)
    requires
        call_ensures(HumanRenderer::jobs_due, (renderer, jobs, dues), r),
        dues@.len() == jobs@.len(),
        !renderer.color,
        jobs@.len() == 1 ==> call_ensures(remaining, (jobs@[0].remaining_seconds,), only),
    ensures
        jobs@.len() == 0 ==> r@ == "No jobs."@,
        jobs@.len() == 1 ==> r@ == "JOB\tSTATE\tDUE\tREMAINING\tNAME"@ + "\n"@ + line_of_job(
            jobs@[0],
            dues@[0]@,
            only@,
        ),
{
    if jobs@.len() == 1 {
        let header = "JOB\tSTATE\tDUE\tREMAINING\tNAME"@;
        let lines = seq![header] + Seq::new(
            jobs@.len(),
            |i: int| job_line(jobs@[i], texts(dues@)[i], renderer.color),
        );
        reveal_with_fuel(joined, 2);
        assert(lines.drop_last() =~= seq![header]);
        assert(lines.last() == job_line(jobs@[0], texts(dues@)[0], renderer.color));
        assert(texts(dues@)[0] == dues@[0]@);
    }
}

/// The table grows by one line for each further job.
pub proof fn lemma_job_table_grows_by_lines(
    renderer: &HumanRenderer,
    earlier: &Vec<JobView>,
    earlier_dues: &Vec<String>,
    all: &Vec<JobView>,
    dues: &Vec<String>,
    shorter: String,
    longer: String,
    rest: String,
)
    requires
        earlier@.len() > 0,
        earlier_dues@.len() == earlier@.len(),
        all@.len() == earlier@.len() + 1,
        dues@.len() == all@.len(),
        all@.drop_last() == earlier@,
        dues@.drop_last() == earlier_dues@,
        !renderer.color,
        call_ensures(HumanRenderer::jobs_due, (renderer, earlier, earlier_dues), shorter),
        call_ensures(HumanRenderer::jobs_due, (renderer, all, dues), longer),
        call_ensures(remaining, (all@.last().remaining_seconds,), rest),
    ensures
        longer@ == shorter@ + "\n"@ + line_of_job(all@.last(), dues@.last()@, rest@),
{
    let header = "JOB\tSTATE\tDUE\tREMAINING\tNAME"@;
    let lines = seq![header] + Seq::new(
        all@.len(),
        |i: int| job_line(all@[i], texts(dues@)[i], renderer.color),
    );
    let fewer = seq![header] + Seq::new(
        earlier@.len(),
        |i: int| job_line(earlier@[i], texts(earlier_dues@)[i], renderer.color),
    );
    assert forall|i: int| 0 <= i < earlier@.len() implies earlier@[i] == all@[i] && texts(
        earlier_dues@,
    )[i] == texts(dues@)[i] by {
        assert(all@.drop_last()[i] == all@[i]);
        assert(dues@.drop_last()[i] == dues@[i]);
    }
    assert(lines.drop_last() =~= fewer);
    assert(lines.last() == job_line(
        all@.last(),
        texts(dues@)[all@.len() - 1],
        renderer.color,
    ));
    assert(texts(dues@)[all@.len() - 1] == dues@.last()@);
}

/// What is said of a submission names the job, when it is due and its state.
pub proof fn lemma_submission_in_words(
    renderer: &HumanRenderer,
    view: &SubmissionView,
    due: &str,
    r: String,
)
    requires
        call_ensures(HumanRenderer::submission_due, (renderer, view, due), r),
        !renderer.color,
    ensures
        r@ == (if view.dry_run {
            "Dry run"@
        } else {
            "Scheduled"@
        }) + " "@ + view.job_id@ + " for "@ + due@ + " ("@ + word_of(view.state) + ")"@,
{
}

/// The output of a run is shown with the run, its job, its state and how it ended, and each stream under its
/// heading; one that was cut off says so.
pub proof fn lemma_output_in_words(output: &RunOutput, r: String, ended: String)
    requires
        call_ensures(HumanRenderer::run_output, (output,), r),
        output.outcome matches Some(outcome) && call_ensures(format_outcome, (&outcome,), ended),
        output.state == RunState::Succeeded,
        !output.stdout.truncated,
        output.stderr.truncated,
    ensures
        r@ == "Run: "@ + id_text(output.run_id@) + "\nJob: "@ + id_text(output.job_id@)
            + "\nState: "@ + "Succeeded"@ + "\nOutcome: "@ + ended@ + "\n"@ + ("--- "@ + "stdout"@
            + ""@ + " ---"@) + "\n"@ + text_of_bytes(output.stdout.content@) + "\n"@ + ("--- "@
            + "stderr"@ + " (truncated at capture cap)"@ + " ---"@) + "\n"@ + text_of_bytes(
            output.stderr.content@,
        ),
{
    reveal_with_fuel(joined, 6);
    let header = "Run: "@ + id_text(output.run_id@) + "\nJob: "@ + id_text(output.job_id@)
        + "\nState: "@ + "Succeeded"@ + "\nOutcome: "@ + ended@;
    let out = "--- "@ + "stdout"@ + ""@ + " ---"@;
    let err = "--- "@ + "stderr"@ + " (truncated at capture cap)"@ + " ---"@;
    let a = text_of_bytes(output.stdout.content@);
    let b = text_of_bytes(output.stderr.content@);
    let all = seq![header, out, a, err, b];
    assert(all.drop_last() =~= seq![header, out, a, err]);
    assert(all.drop_last().drop_last() =~= seq![header, out, a]);
    assert(all.drop_last().drop_last().drop_last() =~= seq![header, out]);
    assert(all.drop_last().drop_last().drop_last().drop_last() =~= seq![header]);
}

} // verus!
