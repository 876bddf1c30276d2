//! Human-readable output.
use vstd::prelude::*;

use super::args::ColorArg;
use super::view::{JobView, ProcessView, RunView, SubmissionView};
use crate::application::doctor::{DiagnosticCheck, DiagnosticStatus, DoctorReport};
use crate::application::history::{RunOutput, RunStream};
use crate::application::service::{ServiceChange, ServiceStatus};
use crate::domain::duration::duration_text;
use crate::domain::execution::optional_text;
use crate::domain::id::id_text;
use crate::domain::primitives::UtcTimestamp;
use crate::domain::run::{outcome_model, OutcomeModel, RunOutcome};
use crate::domain::schedule::{RuntimeTier, Schedule, ScheduleModel};
use crate::domain::state::{JobState, RunState};
use crate::outside;
use crate::text::{
    char_is_ascii_alnum, chars_of, copy_text, decimal, decimal_int, is_ascii_alnum, join, joined,
    push_decimal, push_decimal_i64, push_text, texts,
};

verus! {

broadcast use vstd::seq::group_seq_axioms;

// ---------------------------------------------------------------------------------------------
// Words
// ---------------------------------------------------------------------------------------------
/// The word for a job state.
pub open spec fn job_state_word(state: JobState) -> Seq<char> {
    match state {
        JobState::Scheduled => "Scheduled"@,
        JobState::Waiting => "Waiting"@,
        JobState::Starting => "Starting"@,
        JobState::Running => "Running"@,
        JobState::CancelRequested => "CancelRequested"@,
        JobState::Succeeded => "Succeeded"@,
        JobState::Failed => "Failed"@,
        JobState::Cancelled => "Cancelled"@,
        JobState::Interrupted => "Interrupted"@,
        JobState::Missed => "Missed"@,
    }
}

/// The word for a run state.
pub open spec fn run_state_word(state: RunState) -> Seq<char> {
    match state {
        RunState::Starting => "Starting"@,
        RunState::Running => "Running"@,
        RunState::CancelRequested => "CancelRequested"@,
        RunState::Succeeded => "Succeeded"@,
        RunState::Failed => "Failed"@,
        RunState::Cancelled => "Cancelled"@,
        RunState::Interrupted => "Interrupted"@,
    }
}

fn job_state_text(state: JobState) -> (r: &'static str)
    ensures
        r@ == job_state_word(state),
{
    match state {
        JobState::Scheduled => "Scheduled",
        JobState::Waiting => "Waiting",
        JobState::Starting => "Starting",
        JobState::Running => "Running",
        JobState::CancelRequested => "CancelRequested",
        JobState::Succeeded => "Succeeded",
        JobState::Failed => "Failed",
        JobState::Cancelled => "Cancelled",
        JobState::Interrupted => "Interrupted",
        JobState::Missed => "Missed",
    }
}

fn run_state_text(state: RunState) -> (r: &'static str)
    ensures
        r@ == run_state_word(state),
{
    match state {
        RunState::Starting => "Starting",
        RunState::Running => "Running",
        RunState::CancelRequested => "CancelRequested",
        RunState::Succeeded => "Succeeded",
        RunState::Failed => "Failed",
        RunState::Cancelled => "Cancelled",
        RunState::Interrupted => "Interrupted",
    }
}

/// The colour of a job state, as a number of a terminal.
pub open spec fn state_color(state: JobState) -> nat {
    match state {
        JobState::Succeeded => 32,
        JobState::Failed => 31,
        JobState::Interrupted => 31,
        JobState::Missed => 31,
        JobState::Cancelled => 33,
        _ => 36,
    }
}

/// A text in a colour of a terminal.
pub open spec fn colored(text: Seq<char>, number: nat) -> Seq<char> {
    "\x1b["@ + decimal(number) + "m"@ + text + "\x1b[0m"@
}

fn paint(text: &str, number: u64) -> (r: String)
    ensures
        r@ == colored(text@, number as nat),
{
    let mut out: String = "\x1b[".to_owned();
    push_decimal(&mut out, number);
    push_text(&mut out, "m");
    push_text(&mut out, text);
    push_text(&mut out, "\x1b[0m");
    out
}

/// A job state as it is shown.
pub open spec fn shown_state(state: JobState, color: bool) -> Seq<char> {
    if color {
        colored(job_state_word(state), state_color(state))
    } else {
        job_state_word(state)
    }
}

/// The time that remains, in the two largest units.
pub open spec fn remaining_text(seconds: i64) -> Seq<char> {
    if seconds <= 0 {
        "due"@
    } else if seconds < 60 {
        decimal(seconds as nat) + "s"@
    } else if seconds < 3600 {
        decimal((seconds / 60) as nat) + "m "@ + decimal((seconds % 60) as nat) + "s"@
    } else {
        decimal((seconds / 3600) as nat) + "h "@ + decimal(((seconds % 3600) / 60) as nat) + "m"@
    }
}

/// The time that remains, in the two largest units.
pub fn remaining(seconds: i64) -> (r: String)
    ensures
        r@ == remaining_text(seconds),
{
    if seconds <= 0 {
        return "due".to_owned();
    }
    let total: u64 = seconds as u64;
    let mut out: String = String::new();
    if total < 60 {
        push_decimal(&mut out, total);
        push_text(&mut out, "s");
        assert(out@ =~= decimal(seconds as nat) + "s"@);
        return out;
    }
    if total < 3600 {
        push_decimal(&mut out, total / 60);
        push_text(&mut out, "m ");
        push_decimal(&mut out, total % 60);
        push_text(&mut out, "s");
        assert(out@ =~= remaining_text(seconds));
        return out;
    }
    push_decimal(&mut out, total / 3600);
    push_text(&mut out, "h ");
    push_decimal(&mut out, (total % 3600) / 60);
    push_text(&mut out, "m");
    assert(out@ =~= remaining_text(seconds));
    out
}

/// The name of a signal that has a well-known one.
pub open spec fn signal_word(signal: i32) -> Option<Seq<char>> {
    if signal == 1 {
        Some("SIGHUP"@)
    } else if signal == 2 {
        Some("SIGINT"@)
    } else if signal == 3 {
        Some("SIGQUIT"@)
    } else if signal == 9 {
        Some("SIGKILL"@)
    } else if signal == 15 {
        Some("SIGTERM"@)
    } else {
        None
    }
}

/// The name of a signal that has a well-known one.
pub fn signal_name(signal: i32) -> (r: Option<&'static str>)
    ensures
        match r {
            Some(name) => signal_word(signal) == Some(name@),
            None => signal_word(signal) is None,
        },
{
    let (hangup, interrupt, quit, kill, terminate): (i32, i32, i32, i32, i32) =
        outside::signal_numbers();
    if signal == hangup {
        Some("SIGHUP")
    } else if signal == interrupt {
        Some("SIGINT")
    } else if signal == quit {
        Some("SIGQUIT")
    } else if signal == kill {
        Some("SIGKILL")
    } else if signal == terminate {
        Some("SIGTERM")
    } else {
        None
    }
}

/// An outcome in words.
pub open spec fn outcome_text(outcome: OutcomeModel) -> Seq<char> {
    match outcome {
        OutcomeModel::Exit(code) => "exit "@ + decimal_int(code as int),
        OutcomeModel::Signal(signal) => match signal_word(signal) {
            Some(name) => "signal "@ + decimal_int(signal as int) + " ("@ + name + ")"@,
            None => "signal "@ + decimal_int(signal as int),
        },
        OutcomeModel::Failure(reason) => "failure: "@ + reason,
        OutcomeModel::Interrupted(reason) => "interrupted: "@ + reason,
        OutcomeModel::Cancelled(reason) => "cancelled: "@ + reason,
    }
}

fn with_reason(start: &str, reason: &str) -> (r: String)
    ensures
        r@ == start@ + reason@,
{
    let mut out: String = copy_text(start);
    push_text(&mut out, reason);
    out
}

/// An outcome in words.
pub fn format_outcome(outcome: &RunOutcome) -> (r: String)
    ensures
        r@ == outcome_text(outcome@),
{
    match outcome {
        RunOutcome::Exit(code) => {
            let mut out: String = "exit ".to_owned();
            push_decimal_i64(&mut out, *code as i64);
            out
        },
        RunOutcome::Signal(signal) => {
            let mut out: String = "signal ".to_owned();
            push_decimal_i64(&mut out, *signal as i64);
            match signal_name(*signal) {
                Some(name) => {
                    push_text(&mut out, " (");
                    push_text(&mut out, name);
                    push_text(&mut out, ")");
                },
                None => {},
            }
            out
        },
        RunOutcome::Failure(reason) => with_reason("failure: ", reason.as_str()),
        RunOutcome::Interrupted(reason) => with_reason("interrupted: ", reason.as_str()),
        RunOutcome::Cancelled(reason) => with_reason("cancelled: ", reason.as_str()),
    }
}

/// The outcome in words, where there is one.
pub open spec fn optional_outcome_text(outcome: Option<OutcomeModel>) -> Seq<char> {
    match outcome {
        Some(inner) => outcome_text(inner),
        None => "-"@,
    }
}

fn optional_outcome(outcome: &Option<RunOutcome>) -> (r: String)
    ensures
        r@ == optional_outcome_text(outcome_model(*outcome)),
{
    match outcome {
        Some(inner) => format_outcome(inner),
        None => "-".to_owned(),
    }
}

/// A schedule in words.
pub open spec fn schedule_text(schedule: ScheduleModel) -> Seq<char> {
    match schedule {
        ScheduleModel::OneShotRelative { duration, .. } => "after "@ + duration_text(duration@),
        ScheduleModel::OneShotAbsolute { original_input, timezone, .. } => original_input + " ("@
            + timezone + ")"@,
        ScheduleModel::RecurringInterval { interval, .. } => "every "@ + duration_text(interval@),
    }
}

/// A schedule in words.
pub fn schedule(value: &Schedule) -> (r: String)
    ensures
        r@ == schedule_text(value@),
{
    match value {
        Schedule::OneShotRelative { duration, .. } => {
            with_reason("after ", duration.to_string().as_str())
        },
        Schedule::OneShotAbsolute { original_input, timezone, .. } => {
            let mut out: String = copy_text(original_input.as_str());
            push_text(&mut out, " (");
            push_text(&mut out, timezone.as_str());
            push_text(&mut out, ")");
            out
        },
        Schedule::RecurringInterval { interval, .. } => {
            with_reason("every ", interval.to_string().as_str())
        },
    }
}

// ---------------------------------------------------------------------------------------------
// Command lines
// ---------------------------------------------------------------------------------------------
/// The character needs no quotes.
pub open spec fn is_plain(c: char) -> bool {
    is_ascii_alnum(c) || c == '-' || c == '_' || c == '.' || c == '/'
}

/// A text between single quotes, where a single quote is written outside of them.
pub open spec fn quoted_body(text: Seq<char>) -> Seq<char>
    decreases text.len(),
{
    if text.len() == 0 {
        Seq::empty()
    } else {
        let last = if text.last() == '\'' {
            "'\\''"@
        } else {
            seq![text.last()]
        };
        quoted_body(text.drop_last()) + last
    }
}

/// An argument as it is shown: quoted unless every character is plain.
pub open spec fn shown_argument(argument: Seq<char>) -> Seq<char> {
    if forall|i: int| 0 <= i < argument.len() ==> is_plain(#[trigger] argument[i]) {
        argument
    } else {
        "'"@ + quoted_body(argument) + "'"@
    }
}

/// A command line as it is shown, every argument for itself.
pub open spec fn shown_argv(argv: Seq<Seq<char>>) -> Seq<char> {
    joined(argv.map_values(|argument: Seq<char>| shown_argument(argument)), " "@)
}

/// Where the reading of a shown command line stands.
#[derive(Clone, Copy, Debug, PartialEq, Eq, Structural)]
pub enum Reading {
    /// Outside of quotes.
    Outside,
    /// Between quotes.
    Quoted,
    /// After a backslash.
    Escaped,
}

/// The arguments of a shown command line: a space outside of quotes ends one. `current` is what was
/// read of the argument so far.
pub open spec fn read_argv(text: Seq<char>, reading: Reading, current: Seq<char>) -> Seq<Seq<char>>
    decreases text.len(),
{
    if text.len() == 0 {
        seq![current]
    } else {
        let c = text[0];
        let rest = text.skip(1);
        match reading {
            Reading::Outside => if c == ' ' {
                seq![current] + read_argv(rest, Reading::Outside, Seq::empty())
            } else if c == '\'' {
                read_argv(rest, Reading::Quoted, current)
            } else if c == '\\' {
                read_argv(rest, Reading::Escaped, current)
            } else {
                read_argv(rest, Reading::Outside, current.push(c))
            },
            Reading::Quoted => if c == '\'' {
                read_argv(rest, Reading::Outside, current)
            } else {
                read_argv(rest, Reading::Quoted, current.push(c))
            },
            Reading::Escaped => read_argv(rest, Reading::Outside, current.push(c)),
        }
    }
}

proof fn lemma_read_plain(argument: Seq<char>, tail: Seq<char>, current: Seq<char>)
    requires
        forall|i: int| 0 <= i < argument.len() ==> is_plain(#[trigger] argument[i]),
    ensures
        read_argv(argument + tail, Reading::Outside, current) == read_argv(
            tail,
            Reading::Outside,
            current + argument,
        ),
    decreases argument.len(),
{
    if argument.len() == 0 {
        assert(argument + tail =~= tail);
        assert(current + argument =~= current);
    } else {
        let init = argument.drop_last();
        let last = argument.last();
        let after = seq![last] + tail;
        assert forall|i: int| 0 <= i < init.len() implies is_plain(#[trigger] init[i]) by {
            assert(init[i] == argument[i]);
        }
        assert(is_plain(argument[argument.len() - 1]));
        assert(argument + tail =~= init + after);
        lemma_read_plain(init, after, current);
        assert(after.skip(1) =~= tail);
        assert((current + init).push(last) =~= current + argument);
    }
}

proof fn lemma_read_quoted(argument: Seq<char>, tail: Seq<char>, current: Seq<char>)
    ensures
        read_argv(quoted_body(argument) + tail, Reading::Quoted, current) == read_argv(
            tail,
            Reading::Quoted,
            current + argument,
        ),
    decreases argument.len(),
{
    if argument.len() == 0 {
        assert(quoted_body(argument) + tail =~= tail);
        assert(current + argument =~= current);
    } else {
        let init = argument.drop_last();
        let last = argument.last();
        let so_far = current + init;
        assert(so_far.push(last) =~= current + argument);
        if last == '\'' {
            reveal_strlit("'\\''");
            let after = "'\\''"@ + tail;
            assert(quoted_body(argument) + tail =~= quoted_body(init) + after);
            lemma_read_quoted(init, after, current);
            let second = after.skip(1);
            let third = second.skip(1);
            let fourth = third.skip(1);
            assert(after[0] == '\'' && second[0] == '\\' && third[0] == '\'' && fourth[0] == '\'');
            assert(fourth.skip(1) =~= tail);
            assert(read_argv(after, Reading::Quoted, so_far) == read_argv(
                second,
                Reading::Outside,
                so_far,
            ));
            assert(read_argv(second, Reading::Outside, so_far) == read_argv(
                third,
                Reading::Escaped,
                so_far,
            ));
            assert(read_argv(third, Reading::Escaped, so_far) == read_argv(
                fourth,
                Reading::Outside,
                so_far.push(last),
            ));
            assert(read_argv(fourth, Reading::Outside, so_far.push(last)) == read_argv(
                tail,
                Reading::Quoted,
                so_far.push(last),
            ));
        } else {
            let after = seq![last] + tail;
            assert(quoted_body(argument) + tail =~= quoted_body(init) + after);
            lemma_read_quoted(init, after, current);
            assert(after.skip(1) =~= tail);
        }
    }
}

proof fn lemma_read_argument(argument: Seq<char>, tail: Seq<char>)
    ensures
        read_argv(shown_argument(argument) + tail, Reading::Outside, Seq::empty()) == read_argv(
            tail,
            Reading::Outside,
            argument,
        ),
{
    let none = Seq::<char>::empty();
    assert(none + argument =~= argument);
    if forall|i: int| 0 <= i < argument.len() ==> is_plain(#[trigger] argument[i]) {
        lemma_read_plain(argument, tail, none);
    } else {
        reveal_strlit("'");
        let after = "'"@ + tail;
        let body = quoted_body(argument) + after;
        let text = shown_argument(argument) + tail;
        assert(text =~= "'"@ + body);
        assert(text.skip(1) =~= body);
        lemma_read_quoted(argument, after, none);
        assert(after.skip(1) =~= tail);
    }
}

proof fn lemma_read_shown(argv: Seq<Seq<char>>, tail: Seq<char>)
    requires
        argv.len() > 0,
    ensures
        read_argv(shown_argv(argv) + tail, Reading::Outside, Seq::empty()) == argv.drop_last()
            + read_argv(tail, Reading::Outside, argv.last()),
    decreases argv.len(),
{
    let shown = argv.map_values(|argument: Seq<char>| shown_argument(argument));
    let last = argv.last();
    assert(shown.last() == shown_argument(last));
    lemma_read_argument(last, tail);
    if argv.len() == 1 {
        assert(shown_argv(argv) == shown_argument(last));
        assert(argv.drop_last() =~= Seq::<Seq<char>>::empty());
        assert(argv.drop_last() + read_argv(tail, Reading::Outside, last) =~= read_argv(
            tail,
            Reading::Outside,
            last,
        ));
    } else {
        let init = argv.drop_last();
        assert(shown.drop_last() =~= init.map_values(
            |argument: Seq<char>| shown_argument(argument),
        ));
        reveal_strlit(" ");
        let after = " "@ + (shown_argument(last) + tail);
        assert(shown_argv(argv) + tail =~= shown_argv(init) + after);
        lemma_read_shown(init, after);
        assert(after.skip(1) =~= shown_argument(last) + tail);
        assert(read_argv(after, Reading::Outside, init.last()) == seq![init.last()] + read_argv(
            tail,
            Reading::Outside,
            last,
        ));
        assert(init.drop_last() + (seq![init.last()] + read_argv(tail, Reading::Outside, last))
            =~= init + read_argv(tail, Reading::Outside, last));
    }
}

/// A shown command line reads back as its arguments, whatever spaces and quotes they hold.
pub proof fn lemma_shown_argv_reads_back(argv: Seq<Seq<char>>)
    requires
        argv.len() > 0,
    ensures
        read_argv(shown_argv(argv), Reading::Outside, Seq::empty()) == argv,
{
    let none = Seq::<char>::empty();
    lemma_read_shown(argv, none);
    assert(shown_argv(argv) + none =~= shown_argv(argv));
    assert(argv.drop_last() + seq![argv.last()] =~= argv);
}

/// Different command lines are never shown alike: argument boundaries stay visible.
pub proof fn lemma_shown_argv_is_unambiguous(left: Seq<Seq<char>>, right: Seq<Seq<char>>)
    requires
        left.len() > 0,
        right.len() > 0,
        shown_argv(left) == shown_argv(right),
    ensures
        left == right,
{
    lemma_shown_argv_reads_back(left);
    lemma_shown_argv_reads_back(right);
}

fn show_argument(argument: &str) -> (r: String)
    ensures
        r@ == shown_argument(argument@),
{
    let chars: Vec<char> = chars_of(argument);
    let mut plain: bool = true;
    let mut body: String = "'".to_owned();
    let mut index: usize = 0;
    assert(argument@.take(0) =~= Seq::<char>::empty());
    assert(body@ =~= "'"@ + quoted_body(argument@.take(0)));
    while index < chars.len()
        invariant
            index <= chars@.len(),
            chars@ == argument@,
            plain == (forall|i: int| 0 <= i < index ==> is_plain(#[trigger] argument@[i])),
            body@ == "'"@ + quoted_body(argument@.take(index as int)),
        decreases chars@.len() - index,
    {
        let c: char = chars[index];
        proof {
            let next = argument@.take(index + 1);
            assert(next.drop_last() =~= argument@.take(index as int));
            assert(next.last() == c);
        }
        let ghost before = body@;
        if !(char_is_ascii_alnum(c) || c == '-' || c == '_' || c == '.' || c == '/') {
            plain = false;
            assert(!is_plain(argument@[index as int]));
        }
        if c == '\'' {
            push_text(&mut body, "'\\''");
            assert(body@ =~= before + "'\\''"@);
        } else {
            body.push(c);
            assert(body@ =~= before + seq![c]);
        }
        assert(body@ =~= "'"@ + quoted_body(argument@.take(index + 1)));
        index += 1;
    }
    assert(argument@.take(argument@.len() as int) =~= argument@);
    if plain {
        return copy_text(argument);
    }
    push_text(&mut body, "'");
    body
}

/// A command line as it is shown.
pub fn display_argv(argv: &Vec<String>) -> (r: String)
    ensures
        r@ == shown_argv(texts(argv@)),
{
    let mut shown: Vec<String> = Vec::new();
    let mut index: usize = 0;
    while index < argv.len()
        invariant
            index <= argv@.len(),
            shown@.len() == index,
            forall|i: int| 0 <= i < index ==> (#[trigger] shown@[i])@ == shown_argument(argv@[i]@),
        decreases argv@.len() - index,
    {
        shown.push(show_argument(argv[index].as_str()));
        index += 1;
    }
    assert(texts(shown@) =~= texts(argv@).map_values(
        |argument: Seq<char>| shown_argument(argument),
    ));
    join(&shown, " ")
}

// ---------------------------------------------------------------------------------------------
// Tables
// ---------------------------------------------------------------------------------------------
/// A text, or a dash in its place.
pub open spec fn or_dash(text: Option<Seq<char>>) -> Seq<char> {
    match text {
        Some(inner) => inner,
        None => "-"@,
    }
}

fn dash(text: &Option<String>) -> (r: String)
    ensures
        r@ == or_dash(optional_text(*text)),
{
    match text {
        Some(inner) => copy_text(inner.as_str()),
        None => "-".to_owned(),
    }
}

/// A line of the table of jobs.
pub open spec fn job_line(job: JobView, due: Seq<char>, color: bool) -> Seq<char> {
    job.job_id@ + "\t"@ + shown_state(job.state, color) + "\t"@ + due + "\t"@ + remaining_text(
        job.remaining_seconds,
    ) + "\t"@ + or_dash(optional_text(job.name))
}

/// The table of jobs, with their deadlines on the clock of the machine.
pub open spec fn jobs_table(jobs: Seq<JobView>, dues: Seq<Seq<char>>, color: bool) -> Seq<char> {
    if jobs.len() == 0 {
        "No jobs."@
    } else {
        joined(
            seq!["JOB\tSTATE\tDUE\tREMAINING\tNAME"@] + Seq::new(
                jobs.len(),
                |i: int| job_line(jobs[i], dues[i], color),
            ),
            "\n"@,
        )
    }
}

/// A line of the table of runs.
pub open spec fn run_line(run: RunView, scheduled: Seq<char>, finished: Seq<char>) -> Seq<char> {
    run.run_id@ + "\t"@ + run.job_id@ + "\t"@ + run_state_word(run.state) + "\t"@ + scheduled
        + "\t"@ + finished
}

/// The table of runs, with their times on the clock of the machine.
pub open spec fn runs_table(runs: Seq<RunView>, times: Seq<(Seq<char>, Seq<char>)>) -> Seq<char> {
    if runs.len() == 0 {
        "No runs."@
    } else {
        joined(
            seq!["RUN\tJOB\tSTATE\tSCHEDULED\tFINISHED"@] + Seq::new(
                runs.len(),
                |i: int| run_line(runs[i], times[i].0, times[i].1),
            ),
            "\n"@,
        )
    }
}

/// A line of the table of processes.
pub open spec fn process_line(process: ProcessView) -> Seq<char> {
    process.job_id@ + "\t"@ + process.run_id@ + "\t"@ + process.role@ + "\t"@ + decimal(
        process.pid as nat,
    ) + "\t"@ + decimal_int(process.process_group_id as int) + "\t"@ + run_state_word(process.state)
}

/// The table of processes.
pub open spec fn processes_table(processes: Seq<ProcessView>) -> Seq<char> {
    if processes.len() == 0 {
        "No live ATX processes."@
    } else {
        joined(
            seq!["JOB\tRUN\tROLE\tPID\tPGID\tSTATE"@] + Seq::new(
                processes.len(),
                |i: int| process_line(processes[i]),
            ),
            "\n"@,
        )
    }
}

/// The heading of a captured stream.
pub open spec fn stream_heading(label: Seq<char>, truncated: bool) -> Seq<char> {
    let marker = if truncated {
        " (truncated at capture cap)"@
    } else {
        ""@
    };
    "--- "@ + label + marker + " ---"@
}

/// The captured output of a run.
pub open spec fn output_text(output: RunOutput) -> Seq<char> {
    joined(
        seq![
            "Run: "@ + id_text(output.run_id@) + "\nJob: "@ + id_text(output.job_id@) + "\nState: "@
                + run_state_word(output.state) + "\nOutcome: "@ + optional_outcome_text(
                outcome_model(output.outcome),
            ),
            stream_heading("stdout"@, output.stdout.truncated),
            outside::text_of_bytes(output.stdout.content@),
            stream_heading("stderr"@, output.stderr.truncated),
            outside::text_of_bytes(output.stderr.content@),
        ],
        "\n"@,
    )
}

/// The word and the colour of a check.
pub open spec fn check_mark(status: DiagnosticStatus) -> (Seq<char>, nat) {
    match status {
        DiagnosticStatus::Pass => ("ok"@, 32),
        DiagnosticStatus::Warning => ("warn"@, 33),
        DiagnosticStatus::Fail => ("fail"@, 31),
    }
}

/// A line of a diagnostic report.
pub open spec fn check_line(check: DiagnosticCheck, color: bool) -> Seq<char> {
    let (word, number) = check_mark(check.status);
    let mark = if color {
        colored(word, number)
    } else {
        word
    };
    "["@ + mark + "] "@ + check.name@ + ": "@ + check.message@
}

/// A diagnostic report.
pub open spec fn report_text(report: DoctorReport, color: bool) -> Seq<char> {
    let heading = if report.healthy {
        "ATX is ready."@
    } else {
        "ATX needs attention."@
    };
    joined(
        seq![heading] + Seq::new(
            report.checks@.len(),
            |i: int| check_line(report.checks@[i], color),
        ) + seq!["tzdb: "@ + report.tzdb_version@],
        "\n"@,
    )
}

/// A truth value in words.
pub open spec fn bool_word(value: bool) -> Seq<char> {
    if value {
        "true"@
    } else {
        "false"@
    }
}

/// The status of a service.
pub open spec fn status_text(status: ServiceStatus) -> Seq<char> {
    let all = joined(texts(status.files@), ", "@);
    let files = if all.len() == 0 {
        "-"@
    } else {
        all
    };
    "Manager: "@ + status.manager@ + "\nInstalled: "@ + bool_word(status.installed)
        + "\nRunning: "@ + bool_word(status.running) + "\nFiles: "@ + files + "\nGuarantee: "@ + status.guarantee@ + "\nStatus: "@ + status.detail@
}

/// A job with the outcome of its last run.
pub open spec fn job_text(
    job: JobView,
    due: Seq<char>,
    outcome: Option<OutcomeModel>,
    color: bool,
) -> Seq<char> {
    let keys = if job.execution.environment_keys@.len() == 0 {
        "-"@
    } else {
        joined(texts(job.execution.environment_keys@), ", "@)
    };
    "Job: "@ + job.job_id@ + "\nName: "@ + or_dash(optional_text(job.name)) + "\nDescription: "@
        + or_dash(optional_text(job.description)) + "\nState: "@ + shown_state(job.state, color)
        + "\nDue: "@ + due + "\nRemaining: "@ + remaining_text(job.remaining_seconds)
        + "\nSchedule: "@ + schedule_text(job.schedule@) + "\nRuntime: "@ + tier_word(
        job.runtime_tier,
    ) + "\nLast outcome: "@ + optional_outcome_text(outcome) + "\nCommand: "@ + shown_argv(
        texts(job.execution.argv@),
    ) + "\nWorking directory: "@ + job.execution.working_directory@ + "\nEnvironment keys: "@
        + keys
}

/// The word for a runtime tier.
pub open spec fn tier_word(tier: RuntimeTier) -> Seq<char> {
    match tier {
        RuntimeTier::Session => "Session"@,
        RuntimeTier::Durable => "Durable"@,
    }
}

/// What is said of a submission.
pub open spec fn submission_text(view: SubmissionView, due: Seq<char>, color: bool) -> Seq<char> {
    let start = if view.dry_run {
        "Dry run"@
    } else {
        "Scheduled"@
    };
    start + " "@ + view.job_id@ + " for "@ + due + " ("@ + shown_state(view.state, color) + ")"@
}

// ---------------------------------------------------------------------------------------------
// The renderer
// ---------------------------------------------------------------------------------------------
/// Renders output for people.
pub struct HumanRenderer {
    pub color: bool,
}

/// The machine was asked for this instant, as day, time and offset on its clock, with this text.
pub closed spec fn shown_locally(timestamp: UtcTimestamp, text: Seq<char>) -> bool {
    exists|format: &str, r: String|
        {
            &&& #[trigger] call_ensures(
                outside::local_time_text,
                (timestamp@ as i128, format),
                r,
            )
            &&& format@ == "%Y-%m-%d %H:%M:%S %:z"@
            &&& r@ == text
        }
}

/// An instant as day, time and offset on the clock of the machine.
fn local_timestamp(timestamp: UtcTimestamp) -> (r: String)
    ensures
        shown_locally(timestamp, r@),
{
    let format: &str = "%Y-%m-%d %H:%M:%S %:z";
    let r: String = outside::local_time_text(timestamp.as_nanosecond(), format);
    assert(call_ensures(outside::local_time_text, (timestamp@ as i128, format), r));
    r
}

/// The texts are the time for which a run was scheduled and the time at which it ended; a dash stands
/// for an end that was not yet.
pub open spec fn run_times(run: RunView, times: (Seq<char>, Seq<char>)) -> bool {
    &&& shown_locally(run.scheduled_for_utc, times.0)
    &&& match run.finished_at_utc {
        Some(time) => shown_locally(time, times.1),
        None => times.1 == "-"@,
    }
}

fn tab_line(out: &mut String, part: &str)
    ensures
        final(out)@ == old(out)@ + "\t"@ + part@,
{
    push_text(out, "\t");
    push_text(out, part);
}

impl HumanRenderer {
    /// A renderer with the chosen colours; the terminal decides where nothing was chosen.
    pub fn new(color: ColorArg, terminal: bool) -> (r: HumanRenderer)
        ensures
            r.color == match color {
                ColorArg::Always => true,
                ColorArg::Never => false,
                ColorArg::Auto => terminal,
            },
    {
        HumanRenderer {
            color: match color {
                ColorArg::Always => true,
                ColorArg::Never => false,
                ColorArg::Auto => terminal,
            },
        }
    }

    /// A job state as it is shown.
    pub fn state(&self, state: JobState) -> (r: String)
        ensures
            r@ == shown_state(state, self.color),
    {
        let text: &'static str = job_state_text(state);
        if !self.color {
            return copy_text(text);
        }
        let number: u64 = match state {
            JobState::Succeeded => 32,
            JobState::Failed => 31,
            JobState::Interrupted => 31,
            JobState::Missed => 31,
            JobState::Cancelled => 33,
            _ => 36,
        };
        paint(text, number)
    }

    /// What is said of a submission that is due at a time.
    pub fn submission_due(&self, view: &SubmissionView, due: &str) -> (r: String)
        ensures
            r@ == submission_text(*view, due@, self.color),
    {
        let mut out: String = if view.dry_run {
            "Dry run".to_owned()
        } else {
            "Scheduled".to_owned()
        };
        push_text(&mut out, " ");
        push_text(&mut out, view.job_id.as_str());
        push_text(&mut out, " for ");
        push_text(&mut out, due);
        push_text(&mut out, " (");
        push_text(&mut out, self.state(view.state).as_str());
        push_text(&mut out, ")");
        out
    }

    /// What is said of a submission.
    pub fn submission(&self, view: &SubmissionView) -> (r: String)
        ensures
            exists|due: Seq<char>|
                {
                    &&& shown_locally(view.next_due_utc, due)
                    &&& r@ == #[trigger] submission_text(*view, due, self.color)
                },
    {
        let due: String = local_timestamp(view.next_due_utc);
        self.submission_due(view, due.as_str())
    }

    /// The table of jobs that are due at given times.
    pub fn jobs_due(&self, jobs: &Vec<JobView>, dues: &Vec<String>) -> (r: String)
        requires
            dues@.len() == jobs@.len(),
        ensures
            r@ == jobs_table(jobs@, texts(dues@), self.color),
    {
        if jobs.len() == 0 {
            return "No jobs.".to_owned();
        }
        let mut lines: Vec<String> = Vec::new();
        lines.push("JOB\tSTATE\tDUE\tREMAINING\tNAME".to_owned());
        let mut index: usize = 0;
        while index < jobs.len()
            invariant
                index <= jobs@.len() == dues@.len(),
                lines@.len() == index + 1,
                lines@[0]@ == "JOB\tSTATE\tDUE\tREMAINING\tNAME"@,
                forall|i: int|
                    1 <= i <= index ==> (#[trigger] lines@[i])@ == job_line(
                        jobs@[i - 1],
                        dues@[i - 1]@,
                        self.color,
                    ),
            decreases jobs@.len() - index,
        {
            let job: &JobView = &jobs[index];
            let mut line: String = copy_text(job.job_id.as_str());
            tab_line(&mut line, self.state(job.state).as_str());
            tab_line(&mut line, dues[index].as_str());
            tab_line(&mut line, remaining(job.remaining_seconds).as_str());
            tab_line(&mut line, dash(&job.name).as_str());
            lines.push(line);
            index += 1;
        }
        assert(texts(lines@) =~= seq!["JOB\tSTATE\tDUE\tREMAINING\tNAME"@] + Seq::new(
            jobs@.len(),
            |i: int| job_line(jobs@[i], texts(dues@)[i], self.color),
        ));
        join(&lines, "\n")
    }

    /// The table of jobs.
    pub fn jobs(&self, jobs: &Vec<JobView>) -> (r: String)
        ensures
            exists|dues: Seq<Seq<char>>|
                {
                    &&& dues.len() == jobs@.len()
                    &&& forall|i: int|
                        0 <= i < jobs@.len() ==> shown_locally(
                            (#[trigger] jobs@[i]).next_due_utc,
                            dues[i],
                        )
                    &&& r@ == #[trigger] jobs_table(jobs@, dues, self.color)
                },
    {
        let mut dues: Vec<String> = Vec::new();
        let mut index: usize = 0;
        while index < jobs.len()
            invariant
                index <= jobs@.len(),
                dues@.len() == index,
                forall|i: int|
                    0 <= i < index ==> shown_locally(
                        (#[trigger] jobs@[i]).next_due_utc,
                        dues@[i]@,
                    ),
            decreases jobs@.len() - index,
        {
            dues.push(local_timestamp(jobs[index].next_due_utc));
            index += 1;
        }
        assert(forall|i: int| 0 <= i < jobs@.len() ==> texts(dues@)[i] == (#[trigger] dues@[i])@);
        self.jobs_due(jobs, &dues)
    }

    /// A job that is due at a time, with the outcome of its last run.
    pub fn job_due(&self, job: &JobView, due: &str, last_outcome: &Option<RunOutcome>) -> (r: String)
        ensures
            r@ == job_text(*job, due@, outcome_model(*last_outcome), self.color),
    {
        let mut out: String = "Job: ".to_owned();
        push_text(&mut out, job.job_id.as_str());
        push_text(&mut out, "\nName: ");
        push_text(&mut out, dash(&job.name).as_str());
        push_text(&mut out, "\nDescription: ");
        push_text(&mut out, dash(&job.description).as_str());
        push_text(&mut out, "\nState: ");
        push_text(&mut out, self.state(job.state).as_str());
        push_text(&mut out, "\nDue: ");
        push_text(&mut out, due);
        push_text(&mut out, "\nRemaining: ");
        push_text(&mut out, remaining(job.remaining_seconds).as_str());
        push_text(&mut out, "\nSchedule: ");
        push_text(&mut out, schedule(&job.schedule).as_str());
        push_text(&mut out, "\nRuntime: ");
        push_text(
            &mut out,
            match job.runtime_tier {
                RuntimeTier::Session => "Session",
                RuntimeTier::Durable => "Durable",
            },
        );
        push_text(&mut out, "\nLast outcome: ");
        push_text(&mut out, optional_outcome(last_outcome).as_str());
        push_text(&mut out, "\nCommand: ");
        push_text(&mut out, display_argv(&job.execution.argv).as_str());
        push_text(&mut out, "\nWorking directory: ");
        push_text(&mut out, job.execution.working_directory.as_str());
        push_text(&mut out, "\nEnvironment keys: ");
        if job.execution.environment_keys.len() == 0 {
            push_text(&mut out, "-");
        } else {
            push_text(&mut out, join(&job.execution.environment_keys, ", ").as_str());
        }
        out
    }

    /// A job with the outcome of its last run.
    pub fn job_with_outcome(&self, job: &JobView, last_outcome: Option<RunOutcome>) -> (r: String)
        ensures
            exists|due: Seq<char>|
                {
                    &&& shown_locally(job.next_due_utc, due)
                    &&& r@ == #[trigger] job_text(
                        *job,
                        due,
                        outcome_model(last_outcome),
                        self.color,
                    )
                },
    {
        let due: String = local_timestamp(job.next_due_utc);
        self.job_due(job, due.as_str(), &last_outcome)
    }

    /// A job.
    pub fn job(&self, job: &JobView) -> (r: String)
        ensures
            exists|due: Seq<char>|
                {
                    &&& shown_locally(job.next_due_utc, due)
                    &&& r@ == #[trigger] job_text(*job, due, None, self.color)
                },
    {
        self.job_with_outcome(job, None)
    }

    /// The table of runs that were scheduled and ended at given times.
    pub fn runs_at(runs: &Vec<RunView>, times: &Vec<(String, String)>) -> (r: String)
        requires
            times@.len() == runs@.len(),
        ensures
            r@ == runs_table(
                runs@,
                times@.map_values(|pair: (String, String)| (pair.0@, pair.1@)),
            ),
    {
        if runs.len() == 0 {
            return "No runs.".to_owned();
        }
        let mut lines: Vec<String> = Vec::new();
        lines.push("RUN\tJOB\tSTATE\tSCHEDULED\tFINISHED".to_owned());
        let mut index: usize = 0;
        while index < runs.len()
            invariant
                index <= runs@.len() == times@.len(),
                lines@.len() == index + 1,
                lines@[0]@ == "RUN\tJOB\tSTATE\tSCHEDULED\tFINISHED"@,
                forall|i: int|
                    1 <= i <= index ==> (#[trigger] lines@[i])@ == run_line(
                        runs@[i - 1],
                        times@[i - 1].0@,
                        times@[i - 1].1@,
                    ),
            decreases runs@.len() - index,
        {
            let run: &RunView = &runs[index];
            let mut line: String = copy_text(run.run_id.as_str());
            tab_line(&mut line, run.job_id.as_str());
            tab_line(&mut line, run_state_text(run.state));
            tab_line(&mut line, times[index].0.as_str());
            tab_line(&mut line, times[index].1.as_str());
            lines.push(line);
            index += 1;
        }
        proof {
            let pairs = times@.map_values(|pair: (String, String)| (pair.0@, pair.1@));
            assert(texts(lines@) =~= seq!["RUN\tJOB\tSTATE\tSCHEDULED\tFINISHED"@] + Seq::new(
                runs@.len(),
                |i: int| run_line(runs@[i], pairs[i].0, pairs[i].1),
            ));
        }
        join(&lines, "\n")
    }

    /// The table of runs; one that has not ended shows a dash.
    pub fn runs(runs: &Vec<RunView>) -> (r: String)
        ensures
            exists|times: Seq<(Seq<char>, Seq<char>)>|
                {
                    &&& times.len() == runs@.len()
                    &&& forall|i: int|
                        0 <= i < runs@.len() ==> run_times(#[trigger] runs@[i], times[i])
                    &&& r@ == #[trigger] runs_table(runs@, times)
                },
    {
        let mut times: Vec<(String, String)> = Vec::new();
        let mut index: usize = 0;
        while index < runs.len()
            invariant
                index <= runs@.len(),
                times@.len() == index,
                forall|i: int|
                    0 <= i < index ==> run_times(
                        #[trigger] runs@[i],
                        (times@[i].0@, times@[i].1@),
                    ),
            decreases runs@.len() - index,
        {
            let scheduled: String = local_timestamp(runs[index].scheduled_for_utc);
            let finished: String = match runs[index].finished_at_utc {
                Some(time) => local_timestamp(time),
                None => "-".to_owned(),
            };
            times.push((scheduled, finished));
            index += 1;
        }
        let r: String = HumanRenderer::runs_at(runs, &times);
        proof {
            let pairs = times@.map_values(|pair: (String, String)| (pair.0@, pair.1@));
            assert(forall|i: int|
                0 <= i < runs@.len() ==> pairs[i] == ((#[trigger] times@[i]).0@, times@[i].1@));
            assert forall|i: int| 0 <= i < runs@.len() implies run_times(
                #[trigger] runs@[i],
                pairs[i],
            ) by {
                assert(pairs[i] == (times@[i].0@, times@[i].1@));
            }
            assert(r@ == runs_table(runs@, pairs));
        }
        r
    }

    /// The table of processes.
    pub fn processes(processes: &Vec<ProcessView>) -> (r: String)
        ensures
            r@ == processes_table(processes@),
    {
        if processes.len() == 0 {
            return "No live ATX processes.".to_owned();
        }
        let mut lines: Vec<String> = Vec::new();
        lines.push("JOB\tRUN\tROLE\tPID\tPGID\tSTATE".to_owned());
        let mut index: usize = 0;
        while index < processes.len()
            invariant
                index <= processes@.len(),
                lines@.len() == index + 1,
                lines@[0]@ == "JOB\tRUN\tROLE\tPID\tPGID\tSTATE"@,
                forall|i: int|
                    1 <= i <= index ==> (#[trigger] lines@[i])@ == process_line(processes@[i - 1]),
            decreases processes@.len() - index,
        {
            let process: &ProcessView = &processes[index];
            let mut line: String = copy_text(process.job_id.as_str());
            tab_line(&mut line, process.run_id.as_str());
            tab_line(&mut line, process.role);
            push_text(&mut line, "\t");
            push_decimal(&mut line, process.pid as u64);
            push_text(&mut line, "\t");
            push_decimal_i64(&mut line, process.process_group_id as i64);
            tab_line(&mut line, run_state_text(process.state));
            lines.push(line);
            index += 1;
        }
        assert(texts(lines@) =~= seq!["JOB\tRUN\tROLE\tPID\tPGID\tSTATE"@] + Seq::new(
            processes@.len(),
            |i: int| process_line(processes@[i]),
        ));
        join(&lines, "\n")
    }

    /// The captured output of a run.
    pub fn run_output(output: &RunOutput) -> (r: String)
        ensures
            r@ == output_text(*output),
    {
        let mut header: String = "Run: ".to_owned();
        push_text(&mut header, output.run_id.to_string().as_str());
        push_text(&mut header, "\nJob: ");
        push_text(&mut header, output.job_id.to_string().as_str());
        push_text(&mut header, "\nState: ");
        push_text(&mut header, run_state_text(output.state));
        push_text(&mut header, "\nOutcome: ");
        push_text(&mut header, optional_outcome(&output.outcome).as_str());
        let mut sections: Vec<String> = Vec::new();
        sections.push(header);
        sections.push(heading("stdout", &output.stdout));
        sections.push(outside::lossy_text(output.stdout.content.as_slice()));
        sections.push(heading("stderr", &output.stderr));
        sections.push(outside::lossy_text(output.stderr.content.as_slice()));
        assert(texts(sections@) =~= seq![
            header@,
            stream_heading("stdout"@, output.stdout.truncated),
            outside::text_of_bytes(output.stdout.content@),
            stream_heading("stderr"@, output.stderr.truncated),
            outside::text_of_bytes(output.stderr.content@),
        ]);
        join(&sections, "\n")
    }

    /// A diagnostic report.
    pub fn doctor(&self, report: &DoctorReport) -> (r: String)
        ensures
            r@ == report_text(*report, self.color),
    {
        let mut lines: Vec<String> = Vec::new();
        lines.push(
            if report.healthy {
                "ATX is ready.".to_owned()
            } else {
                "ATX needs attention.".to_owned()
            },
        );
        let ghost first = lines@[0]@;
        let mut index: usize = 0;
        while index < report.checks.len()
            invariant
                index <= report.checks@.len(),
                lines@.len() == index + 1,
                lines@[0]@ == first,
                forall|i: int|
                    1 <= i <= index ==> (#[trigger] lines@[i])@ == check_line(
                        report.checks@[i - 1],
                        self.color,
                    ),
            decreases report.checks@.len() - index,
        {
            lines.push(self.check(&report.checks[index]));
            index += 1;
        }
        lines.push(with_reason("tzdb: ", report.tzdb_version.as_str()));
        assert(texts(lines@) =~= seq![first] + Seq::new(
            report.checks@.len(),
            |i: int| check_line(report.checks@[i], self.color),
        ) + seq!["tzdb: "@ + report.tzdb_version@]);
        join(&lines, "\n")
    }

    fn check(&self, check: &DiagnosticCheck) -> (r: String)
        ensures
            r@ == check_line(*check, self.color),
    {
        let (word, number): (&str, u64) = match check.status {
            DiagnosticStatus::Pass => ("ok", 32),
            DiagnosticStatus::Warning => ("warn", 33),
            DiagnosticStatus::Fail => ("fail", 31),
        };
        let mut out: String = "[".to_owned();
        if self.color {
            push_text(&mut out, paint(word, number).as_str());
        } else {
            push_text(&mut out, word);
        }
        push_text(&mut out, "] ");
        push_text(&mut out, check.name.as_str());
        push_text(&mut out, ": ");
        push_text(&mut out, check.message.as_str());
        out
    }

    /// The status of a service.
    pub fn service_status(status: &ServiceStatus) -> (r: String)
        ensures
            r@ == status_text(*status),
    {
        let files: String = join(&status.files, ", ");
        let mut out: String = "Manager: ".to_owned();
        push_text(&mut out, status.manager.as_str());
        push_text(&mut out, "\nInstalled: ");
        push_text(&mut out, truth(status.installed));
        push_text(&mut out, "\nRunning: ");
        push_text(&mut out, truth(status.running));
        push_text(&mut out, "\nFiles: ");
        if files.as_str().unicode_len() == 0 {
            push_text(&mut out, "-");
        } else {
            push_text(&mut out, files.as_str());
        }
        push_text(&mut out, "\nGuarantee: ");
        push_text(&mut out, status.guarantee.as_str());
        push_text(&mut out, "\nStatus: ");
        push_text(&mut out, status.detail.as_str());
        out
    }

    /// What was done with a service, with its status.
    pub fn service_change(change: &ServiceChange) -> (r: String)
        ensures
            r@ == (if change.changed {
                "Service changed."@
            } else {
                "No change needed."@
            }) + "\n"@ + status_text(change.status),
    {
        let mut out: String = if change.changed {
            "Service changed.".to_owned()
        } else {
            "No change needed.".to_owned()
        };
        push_text(&mut out, "\n");
        push_text(&mut out, HumanRenderer::service_status(&change.status).as_str());
        out
    }
}

fn truth(value: bool) -> (r: &'static str)
    ensures
        r@ == bool_word(value),
{
    if value {
        "true"
    } else {
        "false"
    }
}

fn heading(label: &str, stream: &RunStream) -> (r: String)
    ensures
        r@ == stream_heading(label@, stream.truncated),
{
    let mut out: String = "--- ".to_owned();
    push_text(&mut out, label);
    push_text(
        &mut out,
        if stream.truncated {
            " (truncated at capture cap)"
        } else {
            ""
        },
    );
    push_text(&mut out, " ---");
    out
}

} // verus!
