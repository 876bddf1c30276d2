//! Jobs from command-line arguments.
use vstd::prelude::*;

use super::args::{DstArg, MissedArg, ScheduleOptions, SchedulingArgs};
use super::environment::outcome_of;
use crate::domain::calendar::{
    calendar_error_message, local_name, local_zone, resolution_matches, resolve_calendar,
    CalendarError, CalendarResolution, TimeZoneSelection,
};
use crate::domain::calendar_syntax::{
    calendar_matches, calendar_syntax_message, parse_calendar, CalendarSyntax, CalendarSyntaxError,
};
use crate::domain::duration::{duration_error_message, duration_of_text, DurationSeconds};
use crate::domain::environment::Environment;
use crate::domain::execution::{
    execution_fault, optional_text, tty_fault, ExecutionMode, ExecutionModel, ExecutionSpec,
};
use crate::domain::execution_error::{execution_error_message, ExecutionError};
use crate::domain::id::is_fresh;
use crate::domain::job::{Job, JobModel};
use crate::domain::primitives::{
    in_time_range, text_message, valid_text, Description, Name, UtcTimestamp,
    MAX_DESCRIPTION_CHARS, MAX_NAME_CHARS, NANOS_PER_SECOND,
};
use crate::domain::recurrence::{relative_deadline, ElapsedInstant};
use crate::domain::schedule::{
    DstResolution, MissedPolicy, RuntimeTier, Schedule, ScheduleModel,
};
use crate::domain::state::JobState;
use crate::infrastructure::config::Config;
use crate::path_text::is_absolute;
use crate::text::{copy_text, join, joined, push_text, text_eq, texts};

verus! {

broadcast use vstd::seq::group_seq_axioms;

/// How a repeated local time is resolved.
pub fn map_dst(value: DstArg) -> (r: DstResolution)
    ensures
        r == match value {
            DstArg::Reject => DstResolution::Reject,
            DstArg::Earlier => DstResolution::Earlier,
            DstArg::Later => DstResolution::Later,
        },
{
    match value {
        DstArg::Reject => DstResolution::Reject,
        DstArg::Earlier => DstResolution::Earlier,
        DstArg::Later => DstResolution::Later,
    }
}

/// What recovery does after a missed deadline.
pub fn map_missed(value: MissedArg) -> (r: MissedPolicy)
    ensures
        r == match value {
            MissedArg::Hold => MissedPolicy::Hold,
            MissedArg::RunLatest => MissedPolicy::RunLatest,
            MissedArg::Skip => MissedPolicy::Skip,
        },
{
    match value {
        MissedArg::Hold => MissedPolicy::Hold,
        MissedArg::RunLatest => MissedPolicy::RunLatest,
        MissedArg::Skip => MissedPolicy::Skip,
    }
}

// ---------------------------------------------------------------------------------------------
// When
// ---------------------------------------------------------------------------------------------
/// An option is there that only calendar times have.
pub open spec fn has_calendar_option(options: ScheduleOptions) -> bool {
    options.utc || options.tz is Some || options.dst is Some || options.no_rollover
}

fn calendar_option(options: &ScheduleOptions) -> (r: bool)
    ensures
        r == has_calendar_option(*options),
{
    options.utc || options.tz.is_some() || options.dst.is_some() || options.no_rollover
}

/// A schedule that is settled, or a calendar time that is still to be resolved.
pub enum SchedulePlan {
    Ready(Schedule),
    Calendar {
        input: String,
        timezone: TimeZoneSelection,
        dst_resolution: DstResolution,
        no_rollover: bool,
    },
}

/// The end of a duration that starts now, if it can be represented.
pub open spec fn reachable(wall_now: UtcTimestamp, elapsed_now: ElapsedInstant, seconds: u64) -> bool {
    in_time_range(wall_now@ + seconds * NANOS_PER_SECOND) && elapsed_now@ + seconds
        * NANOS_PER_SECOND <= u128::MAX
}

/// The zone in which a calendar time is meant.
pub open spec fn selects_zone(
    options: ScheduleOptions,
    default_timezone: Seq<char>,
    selection: TimeZoneSelection,
) -> bool {
    if options.utc {
        selection == TimeZoneSelection::Utc
    } else {
        match options.tz {
            Some(name) => selection matches TimeZoneSelection::Named(chosen) && chosen@ == name@,
            None => if default_timezone == "local"@ {
                selection == TimeZoneSelection::Local
            } else {
                selection matches TimeZoneSelection::Named(chosen) && chosen@ == default_timezone
            },
        }
    }
}

/// How a repeated local time is resolved.
pub open spec fn chosen_dst(options: ScheduleOptions) -> DstResolution {
    match options.dst {
        None => DstResolution::Reject,
        Some(DstArg::Reject) => DstResolution::Reject,
        Some(DstArg::Earlier) => DstResolution::Earlier,
        Some(DstArg::Later) => DstResolution::Later,
    }
}

/// The plan for a calendar time that was read.
pub open spec fn calendar_plan(
    options: ScheduleOptions,
    input: Seq<char>,
    default_timezone: Seq<char>,
    parsed: Result<CalendarSyntax, CalendarSyntaxError>,
    r: Result<SchedulePlan, Seq<char>>,
) -> bool {
    match parsed {
        Err(error) => r == Err::<SchedulePlan, Seq<char>>(calendar_syntax_message(error)),
        Ok(syntax) => if options.no_rollover && !(syntax is Time) {
            r == Err::<SchedulePlan, Seq<char>>(
                "--no-rollover is only valid with a time of day"@,
            )
        } else if options.utc && options.dst is Some {
            r == Err::<SchedulePlan, Seq<char>>("--dst is not meaningful with --utc"@)
        } else {
            r matches Ok(SchedulePlan::Calendar { input: text, timezone, dst_resolution, no_rollover })
                && {
                &&& text@ == input
                &&& selects_zone(options, default_timezone, timezone)
                &&& dst_resolution == chosen_dst(options)
                &&& no_rollover == options.no_rollover
            }
        },
    }
}

/// The result is what the time arguments ask for: an interval, a duration or a calendar time.
pub open spec fn plan_matches(
    options: ScheduleOptions,
    when: Seq<Seq<char>>,
    default_timezone: Seq<char>,
    wall_now: UtcTimestamp,
    elapsed_now: ElapsedInstant,
    r: Result<SchedulePlan, Seq<char>>,
) -> bool {
    match options.every {
        Some(every) => if has_calendar_option(options) {
            r == Err::<SchedulePlan, Seq<char>>("calendar options cannot be used with --every"@)
        } else {
            match duration_of_text(every@) {
                Err(error) => r == Err::<SchedulePlan, Seq<char>>(duration_error_message(error)),
                Ok(seconds) => if !reachable(wall_now, elapsed_now, seconds) {
                    r == Err::<SchedulePlan, Seq<char>>("deadline arithmetic overflowed"@)
                } else {
                    r matches Ok(SchedulePlan::Ready(schedule)) && (schedule@ matches
                        ScheduleModel::RecurringInterval { interval, persisted_anchor_utc }
                        && interval@ == seconds && persisted_anchor_utc@ == wall_now@ + seconds
                        * NANOS_PER_SECOND)
                },
            }
        },
        None => match duration_of_text(joined(when, Seq::empty())) {
            Ok(seconds) => if has_calendar_option(options) {
                r == Err::<SchedulePlan, Seq<char>>(
                    "calendar options cannot be used with a relative duration"@,
                )
            } else if !reachable(wall_now, elapsed_now, seconds) {
                r == Err::<SchedulePlan, Seq<char>>("deadline arithmetic overflowed"@)
            } else {
                r matches Ok(SchedulePlan::Ready(schedule)) && (schedule@ matches
                    ScheduleModel::OneShotRelative { duration, persisted_due_utc } && duration@
                    == seconds && persisted_due_utc@ == wall_now@ + seconds * NANOS_PER_SECOND)
            },
            Err(_) => exists|parsed: Result<CalendarSyntax, CalendarSyntaxError>|
                {
                    &&& #[trigger] calendar_matches(joined(when, " "@), parsed)
                    &&& calendar_plan(options, joined(when, " "@), default_timezone, parsed, r)
                },
        },
    }
}

/// What the time arguments ask for.
pub fn plan_schedule(
    options: &ScheduleOptions,
    when: &Vec<String>,
    default_timezone: &str,
    wall_now: UtcTimestamp,
    elapsed_now: ElapsedInstant,
) -> (r: Result<SchedulePlan, String>)
    ensures
        plan_matches(
            *options,
            texts(when@),
            default_timezone@,
            wall_now,
            elapsed_now,
            outcome_of(r),
        ),
{
    match &options.every {
        Some(every) => {
            if calendar_option(options) {
                return Err("calendar options cannot be used with --every".to_owned());
            }
            let interval: DurationSeconds = match DurationSeconds::from_str(every.as_str()) {
                Ok(interval) => interval,
                Err(error) => {
                    return Err(error.to_string());
                },
            };
            return match relative_deadline(wall_now, elapsed_now, interval) {
                Ok(deadline) => Ok(
                    SchedulePlan::Ready(
                        Schedule::RecurringInterval {
                            interval,
                            persisted_anchor_utc: deadline.persisted_due_utc(),
                        },
                    ),
                ),
                Err(error) => Err(error.to_string()),
            };
        },
        None => {},
    }
    let run_together: String = join(when, "");
    proof {
        reveal_strlit("");
        assert(""@ =~= Seq::<char>::empty());
    }
    match DurationSeconds::from_str(run_together.as_str()) {
        Ok(duration) => {
            if calendar_option(options) {
                return Err("calendar options cannot be used with a relative duration".to_owned());
            }
            return match relative_deadline(wall_now, elapsed_now, duration) {
                Ok(deadline) => Ok(
                    SchedulePlan::Ready(
                        Schedule::one_shot_relative(duration, deadline.persisted_due_utc()),
                    ),
                ),
                Err(error) => Err(error.to_string()),
            };
        },
        Err(_) => {},
    }
    let input: String = join(when, " ");
    let parsed: Result<CalendarSyntax, CalendarSyntaxError> = parse_calendar(input.as_str());
    assert(calendar_matches(joined(texts(when@), " "@), parsed));
    let syntax: CalendarSyntax = match parsed {
        Ok(syntax) => syntax,
        Err(error) => {
            return Err(error.to_string());
        },
    };
    let time_of_day: bool = match syntax {
        CalendarSyntax::Time(_) => true,
        _ => false,
    };
    if options.no_rollover && !time_of_day {
        return Err("--no-rollover is only valid with a time of day".to_owned());
    }
    if options.utc && options.dst.is_some() {
        return Err("--dst is not meaningful with --utc".to_owned());
    }
    let timezone: TimeZoneSelection = if options.utc {
        TimeZoneSelection::Utc
    } else {
        match &options.tz {
            Some(name) => TimeZoneSelection::Named(copy_text(name.as_str())),
            None => {
                if text_eq(default_timezone, "local") {
                    TimeZoneSelection::Local
                } else {
                    TimeZoneSelection::Named(copy_text(default_timezone))
                }
            },
        }
    };
    let dst_resolution: DstResolution = match options.dst {
        Some(value) => map_dst(value),
        None => DstResolution::Reject,
    };
    Ok(
        SchedulePlan::Calendar {
            input,
            timezone,
            dst_resolution,
            no_rollover: options.no_rollover,
        },
    )
}

/// The schedule of a calendar time that was resolved, with what it was resolved from.
pub open spec fn resolved_schedule(
    resolution: Result<CalendarResolution, CalendarError>,
    r: Result<Schedule, Seq<char>>,
) -> bool {
    match resolution {
        Ok(resolved) => r matches Ok(schedule) && schedule@ == (ScheduleModel::OneShotAbsolute {
            original_input: resolved@.original_input,
            timezone: resolved@.timezone,
            timezone_database_version: resolved@.timezone_database_version,
            resolved_due_utc: resolved@.resolved_utc,
            dst_resolution: resolved@.dst_resolution,
        }),
        Err(error) => r == Err::<Schedule, Seq<char>>(calendar_error_message(error)),
    }
}

/// The schedule of a calendar time that was resolved.
pub fn absolute_schedule(resolution: Result<CalendarResolution, CalendarError>) -> (r: Result<
    Schedule,
    String,
>)
    ensures
        resolved_schedule(resolution, outcome_of(r)),
{
    match resolution {
        Ok(resolved) => Ok(
            Schedule::one_shot_absolute(
                copy_text(resolved.original_input()),
                copy_text(resolved.timezone()),
                copy_text(resolved.timezone_database_version()),
                resolved.resolved_utc(),
                resolved.dst_resolution(),
            ),
        ),
        Err(error) => Err(error.to_string()),
    }
}

/// The schedule of a plan: a calendar time is resolved on a machine that answers `local` where it is
/// asked for its zone.
pub open spec fn planned_schedule(
    plan: Result<SchedulePlan, Seq<char>>,
    wall_now: UtcTimestamp,
    local: Option<String>,
    r: Result<Schedule, Seq<char>>,
) -> bool {
    match plan {
        Err(error) => r == Err::<Schedule, Seq<char>>(error),
        Ok(SchedulePlan::Ready(schedule)) => r == Ok::<Schedule, Seq<char>>(schedule),
        Ok(SchedulePlan::Calendar { input, timezone, dst_resolution, no_rollover }) => exists|
            resolution: Result<CalendarResolution, CalendarError>,
        |
            {
                &&& local_zone(timezone, local)
                &&& #[trigger] resolution_matches(
                    input@,
                    timezone,
                    dst_resolution,
                    no_rollover,
                    wall_now,
                    local_name(local),
                    resolution,
                )
                &&& resolved_schedule(resolution, r)
            },
    }
}

/// The result is a schedule that the time arguments ask for on a machine that answers `local` where
/// it is asked for its zone.
pub open spec fn schedule_matches(
    options: ScheduleOptions,
    when: Seq<Seq<char>>,
    default_timezone: Seq<char>,
    wall_now: UtcTimestamp,
    elapsed_now: ElapsedInstant,
    local: Option<String>,
    r: Result<Schedule, Seq<char>>,
) -> bool {
    exists|plan: Result<SchedulePlan, Seq<char>>|
        {
            &&& #[trigger] plan_matches(
                options,
                when,
                default_timezone,
                wall_now,
                elapsed_now,
                plan,
            )
            &&& planned_schedule(plan, wall_now, local, r)
        }
}

/// The schedule that the time arguments ask for.
pub fn build_schedule(
    options: &ScheduleOptions,
    when: &Vec<String>,
    default_timezone: &str,
    wall_now: UtcTimestamp,
    elapsed_now: ElapsedInstant,
) -> (r: Result<Schedule, String>)
    ensures
        exists|local: Option<String>| #[trigger]
            schedule_matches(
                *options,
                texts(when@),
                default_timezone@,
                wall_now,
                elapsed_now,
                local,
                outcome_of(r),
            ),
        options.utc || options.tz is Some || default_timezone@ != "local"@ ==> schedule_matches(
            *options,
            texts(when@),
            default_timezone@,
            wall_now,
            elapsed_now,
            None,
            outcome_of(r),
        ),
{
    let plan: Result<SchedulePlan, String> = plan_schedule(
        options,
        when,
        default_timezone,
        wall_now,
        elapsed_now,
    );
    let ghost plan_value = outcome_of(plan);
    match plan {
        Err(error) => {
            let r: Result<Schedule, String> = Err(error);
            assert(planned_schedule(plan_value, wall_now, None, outcome_of(r)));
            assert(schedule_matches(
                *options,
                texts(when@),
                default_timezone@,
                wall_now,
                elapsed_now,
                None,
                outcome_of(r),
            ));
            r
        },
        Ok(SchedulePlan::Ready(schedule)) => {
            let r: Result<Schedule, String> = Ok(schedule);
            assert(planned_schedule(plan_value, wall_now, None, outcome_of(r)));
            assert(schedule_matches(
                *options,
                texts(when@),
                default_timezone@,
                wall_now,
                elapsed_now,
                None,
                outcome_of(r),
            ));
            r
        },
        Ok(SchedulePlan::Calendar { input, timezone, dst_resolution, no_rollover }) => {
            let resolution: Result<CalendarResolution, CalendarError> = resolve_calendar(
                input.as_str(),
                &timezone,
                dst_resolution,
                no_rollover,
                wall_now,
            );
            let ghost resolution_value = resolution;
            let ghost local = choose|local: Option<String>|
                {
                    &&& #[trigger] local_zone(timezone, local)
                    &&& resolution_matches(
                        input@,
                        timezone,
                        dst_resolution,
                        no_rollover,
                        wall_now,
                        local_name(local),
                        resolution_value,
                    )
                };
            let r: Result<Schedule, String> = absolute_schedule(resolution);
            assert(planned_schedule(plan_value, wall_now, local, outcome_of(r)));
            assert(schedule_matches(
                *options,
                texts(when@),
                default_timezone@,
                wall_now,
                elapsed_now,
                local,
                outcome_of(r),
            ));
            proof {
                if options.utc || options.tz is Some || default_timezone@ != "local"@ {
                    assert(!(timezone is Local));
                    assert(planned_schedule(plan_value, wall_now, None, outcome_of(r)));
                }
            }
            r
        },
    }
}

// ---------------------------------------------------------------------------------------------
// What
// ---------------------------------------------------------------------------------------------
/// The arguments of a command, unless one of them is no text.
pub open spec fn command_texts(argv: Seq<Option<String>>) -> Option<Seq<Seq<char>>>
    decreases argv.len(),
{
    if argv.len() == 0 {
        Some(Seq::empty())
    } else {
        match (command_texts(argv.drop_last()), argv.last()) {
            (Some(rest), Some(argument)) => Some(rest.push(argument@)),
            _ => None,
        }
    }
}

fn command_arguments(argv: &Vec<Option<String>>) -> (r: Result<Vec<String>, String>)
    ensures
        match command_texts(argv@) {
            Some(arguments) => r matches Ok(list) && texts(list@) == arguments,
            None => r matches Err(error) && error@ == "command arguments must be valid UTF-8"@,
        },
{
    let mut list: Vec<String> = Vec::new();
    let mut index: usize = 0;
    assert(argv@.take(0) =~= Seq::<Option<String>>::empty());
    assert(texts(list@) =~= Seq::<Seq<char>>::empty());
    while index < argv.len()
        invariant
            index <= argv@.len(),
            command_texts(argv@.take(index as int)) == Some(texts(list@)),
        decreases argv@.len() - index,
    {
        proof {
            let next = argv@.take(index + 1);
            assert(next.drop_last() =~= argv@.take(index as int));
            assert(next.last() == argv@[index as int]);
            lemma_missing_argument_persists(argv@, index + 1);
        }
        match &argv[index] {
            Some(argument) => {
                let ghost before = list@;
                let copy: String = copy_text(argument.as_str());
                list.push(copy);
                assert(texts(list@) =~= texts(before).push(copy@));
            },
            None => {
                return Err("command arguments must be valid UTF-8".to_owned());
            },
        }
        index += 1;
    }
    assert(argv@.take(argv@.len() as int) =~= argv@);
    Ok(list)
}

proof fn lemma_missing_argument_persists(argv: Seq<Option<String>>, len: int)
    requires
        0 <= len <= argv.len(),
    ensures
        command_texts(argv.take(len)) is None ==> command_texts(argv) is None,
    decreases argv.len(),
{
    if len == argv.len() {
        assert(argv.take(len) =~= argv);
    } else {
        assert(argv.drop_last().take(len) =~= argv.take(len));
        lemma_missing_argument_persists(argv.drop_last(), len);
    }
}

/// What the file system says of the working directory: its path with every link followed and
/// whether it is a directory, or why it cannot be used.
pub type DirectoryFacts = Result<(String, bool), String>;

/// What is wrong with the working directory, if anything.
pub open spec fn directory_fault(cwd: Option<String>, directory: DirectoryFacts) -> Option<Seq<char>> {
    match directory {
        Err(detail) => match cwd {
            Some(path) => Some("cannot use working directory "@ + path@ + ": "@ + detail@),
            None => Some("cannot resolve current directory: "@ + detail@),
        },
        Ok((path, is_directory)) => if is_directory {
            None
        } else {
            Some("working directory "@ + path@ + " is not a directory"@)
        },
    }
}

fn check_directory(cwd: &Option<String>, directory: DirectoryFacts) -> (r: Result<String, String>)
    ensures
        match directory_fault(*cwd, directory) {
            Some(fault) => r matches Err(error) && error@ == fault,
            None => r matches Ok(path) && path == directory->Ok_0.0,
        },
{
    match directory {
        Err(detail) => match cwd {
            Some(path) => {
                let mut out: String = "cannot use working directory ".to_owned();
                push_text(&mut out, path.as_str());
                push_text(&mut out, ": ");
                push_text(&mut out, detail.as_str());
                Err(out)
            },
            None => {
                let mut out: String = "cannot resolve current directory: ".to_owned();
                push_text(&mut out, detail.as_str());
                Err(out)
            },
        },
        Ok((path, is_directory)) => {
            if is_directory {
                Ok(path)
            } else {
                let mut out: String = "working directory ".to_owned();
                push_text(&mut out, path.as_str());
                push_text(&mut out, " is not a directory");
                Err(out)
            }
        },
    }
}

/// How the command is started.
pub open spec fn chosen_mode(options: ScheduleOptions) -> ExecutionMode {
    if options.shell {
        ExecutionMode::Shell
    } else {
        ExecutionMode::Direct
    }
}

/// The command before a terminal is recorded.
pub open spec fn plain_command(
    options: ScheduleOptions,
    arguments: Seq<Seq<char>>,
    directory: Seq<char>,
    environment: Environment,
    default_shell: Seq<char>,
) -> ExecutionModel {
    ExecutionModel {
        mode: chosen_mode(options),
        argv: arguments,
        working_directory: directory,
        environment: environment@,
        shell_path: if options.shell {
            Some(default_shell)
        } else {
            None
        },
        notify_tty: None,
    }
}

/// The result is the command with its terminal, where one is asked for.
pub open spec fn with_terminal(
    options: ScheduleOptions,
    command: ExecutionModel,
    terminal: Result<String, String>,
    r: Result<ExecutionSpec, Seq<char>>,
) -> bool {
    if !options.tty {
        r matches Ok(spec) && spec@ == command
    } else {
        match terminal {
            Err(detail) => r == Err::<ExecutionSpec, Seq<char>>(
                "--tty requires stdout to be a terminal: "@ + detail@,
            ),
            Ok(device) => match tty_fault(command, device@) {
                Some(error) => r == Err::<ExecutionSpec, Seq<char>>(execution_error_message(error)),
                None => r matches Ok(spec) && spec@ == (ExecutionModel {
                    notify_tty: Some(device@),
                    ..command
                }),
            },
        }
    }
}

/// The result is the command that the arguments ask for; of several faults the first counts.
pub open spec fn execution_matches(
    args: SchedulingArgs,
    default_shell: Seq<char>,
    directory: DirectoryFacts,
    environment: Result<Environment, String>,
    terminal: Result<String, String>,
    r: Result<ExecutionSpec, Seq<char>>,
) -> bool {
    let options = args.options;
    match command_texts(args.argv@) {
        None => r == Err::<ExecutionSpec, Seq<char>>("command arguments must be valid UTF-8"@),
        Some(arguments) => match directory_fault(options.cwd, directory) {
            Some(fault) => r == Err::<ExecutionSpec, Seq<char>>(fault),
            None => match environment {
                Err(error) => r == Err::<ExecutionSpec, Seq<char>>(error@),
                Ok(values) => {
                    let path = directory->Ok_0.0@;
                    match execution_fault(chosen_mode(options), arguments, path, values@) {
                        Some(error) => r == Err::<ExecutionSpec, Seq<char>>(
                            execution_error_message(error),
                        ),
                        None => if options.shell && !is_absolute(default_shell) {
                            r == Err::<ExecutionSpec, Seq<char>>(
                                execution_error_message(ExecutionError::InvalidShellPath),
                            )
                        } else {
                            with_terminal(
                                options,
                                plain_command(options, arguments, path, values, default_shell),
                                terminal,
                                r,
                            )
                        },
                    }
                },
            },
        },
    }
}

/// The command that the arguments ask for.
pub fn build_execution(
    args: &SchedulingArgs,
    default_shell: &str,
    directory: DirectoryFacts,
    environment: Result<Environment, String>,
    terminal: Result<String, String>,
) -> (r: Result<ExecutionSpec, String>)
    ensures
        execution_matches(
            *args,
            default_shell@,
            directory,
            environment,
            terminal,
            outcome_of(r),
        ),
{
    let arguments: Vec<String> = match command_arguments(&args.argv) {
        Ok(arguments) => arguments,
        Err(error) => {
            return Err(error);
        },
    };
    let mode: ExecutionMode = if args.options.shell {
        ExecutionMode::Shell
    } else {
        ExecutionMode::Direct
    };
    let path: String = match check_directory(&args.options.cwd, directory) {
        Ok(path) => path,
        Err(error) => {
            return Err(error);
        },
    };
    let values: Environment = match environment {
        Ok(values) => values,
        Err(error) => {
            return Err(error);
        },
    };
    let mut execution: ExecutionSpec = match ExecutionSpec::new(mode, arguments, path, values) {
        Ok(execution) => execution,
        Err(error) => {
            return Err(error.to_string());
        },
    };
    if args.options.shell {
        match execution.set_shell_path(copy_text(default_shell)) {
            Ok(_) => {},
            Err(error) => {
                return Err(error.to_string());
            },
        }
    }
    if args.options.tty {
        match terminal {
            Ok(device) => match execution.set_notify_tty(device) {
                Ok(_) => {},
                Err(error) => {
                    return Err(error.to_string());
                },
            },
            Err(detail) => {
                let mut out: String = "--tty requires stdout to be a terminal: ".to_owned();
                push_text(&mut out, detail.as_str());
                return Err(out);
            },
        }
    }
    Ok(execution)
}

// ---------------------------------------------------------------------------------------------
// The job
// ---------------------------------------------------------------------------------------------
/// What recovery does after a missed deadline: what was asked for, or what suits the schedule.
pub open spec fn chosen_policy(options: ScheduleOptions) -> MissedPolicy {
    match options.missed {
        Some(MissedArg::Hold) => MissedPolicy::Hold,
        Some(MissedArg::RunLatest) => MissedPolicy::RunLatest,
        Some(MissedArg::Skip) => MissedPolicy::Skip,
        None => if options.every is Some {
            MissedPolicy::Skip
        } else {
            MissedPolicy::Hold
        },
    }
}

/// Who keeps the deadline.
pub open spec fn chosen_tier(options: ScheduleOptions, default_runtime: RuntimeTier) -> RuntimeTier {
    if options.durable {
        RuntimeTier::Durable
    } else {
        default_runtime
    }
}

/// What is wrong with the name or the note of a job, if anything.
pub open spec fn label_fault(options: ScheduleOptions) -> Option<Seq<char>> {
    if options.name is Some && !valid_text(options.name->0@, MAX_NAME_CHARS) {
        Some(
            text_message(
                options.name->0@,
                "name",
                MAX_NAME_CHARS,
            ),
        )
    } else if options.description is Some && !valid_text(
        options.description->0@,
        MAX_DESCRIPTION_CHARS,
    ) {
        Some(
            text_message(
                options.description->0@,
                "description",
                MAX_DESCRIPTION_CHARS,
            ),
        )
    } else {
        None
    }
}

/// The result is the job with the schedule and the command.
pub open spec fn job_matches(
    options: ScheduleOptions,
    default_runtime: RuntimeTier,
    wall_now: UtcTimestamp,
    owner_uid: u32,
    schedule: Schedule,
    execution: ExecutionSpec,
    r: Result<Job, Seq<char>>,
) -> bool {
    if schedule@.next_due()@ <= wall_now@ {
        r == Err::<Job, Seq<char>>("the resolved deadline must be in the future"@)
    } else if label_fault(options) is Some {
        r == Err::<Job, Seq<char>>(label_fault(options)->0)
    } else {
        r matches Ok(job) && {
            &&& is_fresh(job@.id@)
            &&& job@.revision@ == 1
            &&& job@ == (JobModel {
                id: job@.id,
                revision: job@.revision,
                name: optional_text(options.name),
                description: optional_text(options.description),
                created_at_utc: wall_now,
                updated_at_utc: wall_now,
                state: JobState::Scheduled,
                runtime_tier: chosen_tier(options, default_runtime),
                schedule: schedule@,
                missed_policy: chosen_policy(options),
                execution: execution@,
                next_due_utc: schedule@.next_due(),
                timezone_database_version: schedule@.database_version(),
                owner_uid,
            })
        }
    }
}

/// The job with a schedule and a command.
pub fn assemble_job(
    options: &ScheduleOptions,
    default_runtime: RuntimeTier,
    wall_now: UtcTimestamp,
    owner_uid: u32,
    schedule: Schedule,
    execution: ExecutionSpec,
) -> (r: Result<Job, String>)
    ensures
        job_matches(
            *options,
            default_runtime,
            wall_now,
            owner_uid,
            schedule,
            execution,
            outcome_of(r),
        ),
{
    let missed_policy: MissedPolicy = match options.missed {
        Some(value) => map_missed(value),
        None => {
            if options.every.is_some() {
                MissedPolicy::Skip
            } else {
                MissedPolicy::Hold
            }
        },
    };
    let runtime_tier: RuntimeTier = if options.durable {
        RuntimeTier::Durable
    } else {
        default_runtime
    };
    let mut job: Job = match Job::new(
        wall_now,
        schedule,
        missed_policy,
        runtime_tier,
        execution,
        owner_uid,
    ) {
        Ok(job) => job,
        Err(error) => {
            return Err(error.to_string());
        },
    };
    let name: Option<Name> = match &options.name {
        Some(text) => match Name::new(copy_text(text.as_str())) {
            Ok(name) => Some(name),
            Err(error) => {
                return Err(error.to_string());
            },
        },
        None => None,
    };
    let description: Option<Description> = match &options.description {
        Some(text) => match Description::new(copy_text(text.as_str())) {
            Ok(description) => Some(description),
            Err(error) => {
                return Err(error.to_string());
            },
        },
        None => None,
    };
    job.set_metadata(name, description);
    Ok(job)
}

/// What the machine says of a submission.
pub struct SubmissionFacts {
    pub wall_now: UtcTimestamp,
    pub elapsed_now: ElapsedInstant,
    pub owner_uid: u32,
    pub directory: DirectoryFacts,
    pub environment: Result<Environment, String>,
    pub terminal: Result<String, String>,
}

/// The result is a job that the arguments ask for, given the schedule and the command that they
/// ask for.
pub open spec fn built_job(
    options: ScheduleOptions,
    default_runtime: RuntimeTier,
    wall_now: UtcTimestamp,
    owner_uid: u32,
    schedule: Result<Schedule, Seq<char>>,
    execution: Result<ExecutionSpec, Seq<char>>,
    r: Result<Job, Seq<char>>,
) -> bool {
    match schedule {
        Err(error) => r == Err::<Job, Seq<char>>(error),
        Ok(due) => match execution {
            Err(error) => r == Err::<Job, Seq<char>>(error),
            Ok(command) => job_matches(
                options,
                default_runtime,
                wall_now,
                owner_uid,
                due,
                command,
                r,
            ),
        },
    }
}

/// The job that the arguments ask for.
pub fn build_job(args: &SchedulingArgs, config: &Config, facts: SubmissionFacts) -> (r: Result<
    Job,
    String,
>)
    ensures
        exists|
            local: Option<String>,
            schedule: Result<Schedule, Seq<char>>,
            execution: Result<ExecutionSpec, Seq<char>>,
        |
            {
                &&& #[trigger] schedule_matches(
                    args.options,
                    texts(args.when@),
                    config@.default_timezone,
                    facts.wall_now,
                    facts.elapsed_now,
                    local,
                    schedule,
                )
                &&& #[trigger] execution_matches(
                    *args,
                    config@.default_shell,
                    facts.directory,
                    facts.environment,
                    facts.terminal,
                    execution,
                )
                &&& built_job(
                    args.options,
                    config@.default_runtime,
                    facts.wall_now,
                    facts.owner_uid,
                    schedule,
                    execution,
                    outcome_of(r),
                )
            },
{
    let SubmissionFacts { wall_now, elapsed_now, owner_uid, directory, environment, terminal } =
        facts;
    let scheduled: Result<Schedule, String> = build_schedule(
        &args.options,
        &args.when,
        config.default_timezone(),
        wall_now,
        elapsed_now,
    );
    let ghost schedule_value = outcome_of(scheduled);
    let built: Result<ExecutionSpec, String> = build_execution(
        args,
        config.default_shell(),
        directory,
        environment,
        terminal,
    );
    let ghost execution_value = outcome_of(built);
    let r: Result<Job, String> = match (scheduled, built) {
        (Err(error), _) => Err(error),
        (Ok(_), Err(error)) => Err(error),
        (Ok(schedule), Ok(execution)) => assemble_job(
            &args.options,
            config.default_runtime(),
            wall_now,
            owner_uid,
            schedule,
            execution,
        ),
    };
    assert(built_job(
        args.options,
        config@.default_runtime,
        facts.wall_now,
        facts.owner_uid,
        schedule_value,
        execution_value,
        outcome_of(r),
    ));
    r
}

} // verus!
