//! What the arguments of a submission ask for.
use crate::cli::args::{DstArg, MissedArg, ScheduleOptions, SchedulingArgs};
use crate::cli::schedule::{
    built_job, calendar_plan, command_texts, execution_matches, plan_matches, planned_schedule,
    resolved_schedule, schedule_matches, DirectoryFacts, SchedulePlan,
};
use crate::domain::calendar::{
    local_name, resolution_matches, CalendarError, CalendarResolution, TimeZoneSelection,
};
use crate::domain::calendar_syntax::{calendar_matches, CalendarSyntax, CalendarSyntaxError};
use crate::domain::duration::{duration_of_text, DurationError};
use crate::domain::environment::Environment;
use crate::domain::execution::{execution_fault, optional_text, ExecutionMode, ExecutionSpec};
use crate::domain::job::Job;
use crate::domain::primitives::UtcTimestamp;
use crate::domain::recurrence::ElapsedInstant;
use crate::domain::schedule::{DstResolution, MissedPolicy, RuntimeTier, Schedule, ScheduleModel};
use crate::domain::state::JobState;
use crate::text::joined;
use vstd::prelude::*;

verus! {

broadcast use vstd::seq::group_seq_axioms;

// ---------------------------------------------------------------------------------------------
// When
// ---------------------------------------------------------------------------------------------
/// The words name a calendar time: there is no interval, and they are no duration.
pub open spec fn asks_for_calendar_time(options: ScheduleOptions, when: Seq<Seq<char>>) -> bool {
    options.every is None && duration_of_text(joined(when, Seq::empty())) is Err
}

/// Words are read with a space between them.
pub proof fn lemma_words_are_joined(first: Seq<char>, second: Seq<char>)
    ensures
        joined(seq![first], " "@) == first,
        joined(seq![first], Seq::empty()) == first,
        joined(seq![first, second], " "@) == first + " "@ + second,
        joined(seq![first, second], Seq::empty()) == first + second,
{
    reveal_with_fuel(joined, 2);
    assert(seq![first, second].drop_last() =~= seq![first]);
    assert(first + Seq::<char>::empty() =~= first);
}

/// The configured time zone is the one that is meant where none is asked for: a calendar time then has
/// the schedule that the same arguments give with that zone asked for.
pub proof fn lemma_configured_zone_is_like_one_asked_for(
    options: ScheduleOptions,
    asking: ScheduleOptions,
    zone: String,
    when: Seq<Seq<char>>,
    other_zone: Seq<char>,
    wall_now: UtcTimestamp,
    elapsed_now: ElapsedInstant,
    local: Option<String>,
    r: Result<Schedule, Seq<char>>,
)
    requires
        asks_for_calendar_time(options, when),
        !options.utc,
        options.tz is None,
        zone@ != "local"@,
        asking == (ScheduleOptions { tz: Some(zone), ..options }),
    ensures
        schedule_matches(options, when, zone@, wall_now, elapsed_now, local, r)
            <==> schedule_matches(asking, when, other_zone, wall_now, elapsed_now, local, r),
{
    assert forall|plan: Result<SchedulePlan, Seq<char>>|
        #[trigger] plan_matches(options, when, zone@, wall_now, elapsed_now, plan) <==> plan_matches(
            asking,
            when,
            other_zone,
            wall_now,
            elapsed_now,
            plan,
        ) by {
        let words = joined(when, " "@);
        assert forall|parsed: Result<CalendarSyntax, CalendarSyntaxError>| calendar_plan(
            options,
            words,
            zone@,
            parsed,
            plan,
        ) <==> #[trigger] calendar_plan(asking, words, other_zone, parsed, plan) by {}
        if plan_matches(options, when, zone@, wall_now, elapsed_now, plan) {
            let parsed = choose|parsed: Result<CalendarSyntax, CalendarSyntaxError>|
                #[trigger] calendar_matches(words, parsed) && calendar_plan(
                    options,
                    words,
                    zone@,
                    parsed,
                    plan,
                );
            assert(calendar_plan(asking, words, other_zone, parsed, plan));
        }
    }
    if schedule_matches(options, when, zone@, wall_now, elapsed_now, local, r) {
        let plan = choose|plan: Result<SchedulePlan, Seq<char>>|
            #[trigger] plan_matches(options, when, zone@, wall_now, elapsed_now, plan)
                && planned_schedule(plan, wall_now, local, r);
        assert(plan_matches(asking, when, other_zone, wall_now, elapsed_now, plan));
    }
    if schedule_matches(asking, when, other_zone, wall_now, elapsed_now, local, r) {
        let plan = choose|plan: Result<SchedulePlan, Seq<char>>|
            #[trigger] plan_matches(asking, when, other_zone, wall_now, elapsed_now, plan)
                && planned_schedule(plan, wall_now, local, r);
        assert(plan_matches(options, when, zone@, wall_now, elapsed_now, plan));
    }
}

/// The zone is the one that the arguments ask for, else the configured one; `local` stands for the zone
/// of the machine.
pub open spec fn asked_zone(
    options: ScheduleOptions,
    configured: Seq<char>,
    selection: TimeZoneSelection,
) -> bool {
    match selection {
        TimeZoneSelection::Utc => options.utc,
        TimeZoneSelection::Named(name) => !options.utc && match options.tz {
            Some(asked) => name@ == asked@,
            None => configured != "local"@ && name@ == configured,
        },
        TimeZoneSelection::Local => !options.utc && options.tz is None && configured == "local"@,
    }
}

/// How a local time that occurs twice is resolved: it is refused unless one of the two is chosen.
pub open spec fn asked_dst(options: ScheduleOptions, policy: DstResolution) -> bool {
    match policy {
        DstResolution::Reject => options.dst is None || options.dst == Some(DstArg::Reject),
        DstResolution::Earlier => options.dst == Some(DstArg::Earlier),
        DstResolution::Later => options.dst == Some(DstArg::Later),
    }
}

/// A calendar time is resolved from the words as they were given, in the zone and with the options that
/// were asked for, and the schedule holds what came of it.
pub proof fn lemma_calendar_schedule_is_what_was_resolved(
    options: ScheduleOptions,
    when: Seq<Seq<char>>,
    configured: Seq<char>,
    wall_now: UtcTimestamp,
    elapsed_now: ElapsedInstant,
    local: Option<String>,
    schedule: Schedule,
)
    requires
        asks_for_calendar_time(options, when),
        schedule_matches(
            options,
            when,
            configured,
            wall_now,
            elapsed_now,
            local,
            Ok::<Schedule, Seq<char>>(schedule),
        ),
    ensures
        exists|selection: TimeZoneSelection, policy: DstResolution, resolution: CalendarResolution|
            {
                &&& asked_zone(options, configured, selection)
                &&& asked_dst(options, policy)
                &&& #[trigger] resolution_matches(
                    joined(when, " "@),
                    selection,
                    policy,
                    options.no_rollover,
                    wall_now,
                    local_name(local),
                    Ok::<CalendarResolution, CalendarError>(resolution),
                )
                &&& schedule@ == (ScheduleModel::OneShotAbsolute {
                    original_input: joined(when, " "@),
                    timezone: resolution@.timezone,
                    timezone_database_version: resolution@.timezone_database_version,
                    resolved_due_utc: resolution@.resolved_utc,
                    dst_resolution: policy,
                })
            },
{
    let plan = choose|plan: Result<SchedulePlan, Seq<char>>|
        #[trigger] plan_matches(options, when, configured, wall_now, elapsed_now, plan)
            && planned_schedule(plan, wall_now, local, Ok::<Schedule, Seq<char>>(schedule));
    let words = joined(when, " "@);
    if let Ok(SchedulePlan::Calendar { input, timezone, dst_resolution, no_rollover }) = plan {
        let resolved = choose|resolved: Result<CalendarResolution, CalendarError>|
            {
                &&& #[trigger] resolution_matches(
                    input@,
                    timezone,
                    dst_resolution,
                    no_rollover,
                    wall_now,
                    local_name(local),
                    resolved,
                )
                &&& resolved_schedule(resolved, Ok::<Schedule, Seq<char>>(schedule))
            };
        let resolution = resolved->Ok_0;
        assert(resolved == Ok::<CalendarResolution, CalendarError>(resolution));
        assert(asked_zone(options, configured, timezone));
        assert(resolution_matches(
            words,
            timezone,
            dst_resolution,
            options.no_rollover,
            wall_now,
            local_name(local),
            Ok::<CalendarResolution, CalendarError>(resolution),
        ));
    }
}

/// No option is given that only calendar times have.
pub open spec fn no_calendar_options(options: ScheduleOptions) -> bool {
    !options.utc && options.tz is None && options.dst is None && !options.no_rollover
}

/// The instant is one that both clocks can show.
pub open spec fn clocks_reach(wall_now: int, elapsed_now: int, seconds: int) -> bool {
    &&& wall_now + seconds * 1_000_000_000 <= 253_402_207_200_999_999_999
    &&& elapsed_now + seconds * 1_000_000_000 <= u128::MAX
}

/// Words that are a duration ask for a job that is due once, so many seconds from now.
pub proof fn lemma_duration_is_counted_from_now(
    options: ScheduleOptions,
    when: Seq<Seq<char>>,
    configured: Seq<char>,
    wall_now: UtcTimestamp,
    elapsed_now: ElapsedInstant,
    local: Option<String>,
    seconds: u64,
    r: Result<Schedule, Seq<char>>,
)
    requires
        options.every is None,
        duration_of_text(joined(when, Seq::empty())) == Ok::<u64, DurationError>(seconds),
        schedule_matches(options, when, configured, wall_now, elapsed_now, local, r),
        wall_now@ >= -377_705_023_201_000_000_000,
    ensures
        if !no_calendar_options(options) {
            r == Err::<Schedule, Seq<char>>(
                "calendar options cannot be used with a relative duration"@,
            )
        } else if !clocks_reach(wall_now@, elapsed_now@ as int, seconds as int) {
            r == Err::<Schedule, Seq<char>>("deadline arithmetic overflowed"@)
        } else {
            r matches Ok(schedule) && (schedule@ matches ScheduleModel::OneShotRelative {
                duration,
                persisted_due_utc,
            } && duration@ == seconds && persisted_due_utc@ == wall_now@ + seconds * 1_000_000_000)
        },
{
}

/// An interval asks for a job that is first due one interval from now and recurs with it; the words are
/// not looked at.
pub proof fn lemma_interval_starts_one_interval_from_now(
    options: ScheduleOptions,
    every: String,
    when: Seq<Seq<char>>,
    configured: Seq<char>,
    wall_now: UtcTimestamp,
    elapsed_now: ElapsedInstant,
    local: Option<String>,
    r: Result<Schedule, Seq<char>>,
)
    requires
        options.every == Some(every),
        schedule_matches(options, when, configured, wall_now, elapsed_now, local, r),
        wall_now@ >= -377_705_023_201_000_000_000,
    ensures
        if !no_calendar_options(options) {
            r == Err::<Schedule, Seq<char>>("calendar options cannot be used with --every"@)
        } else {
            match duration_of_text(every@) {
                Err(_) => r is Err,
                Ok(seconds) => if !clocks_reach(wall_now@, elapsed_now@ as int, seconds as int) {
                    r == Err::<Schedule, Seq<char>>("deadline arithmetic overflowed"@)
                } else {
                    r matches Ok(schedule) && (schedule@ matches ScheduleModel::RecurringInterval {
                        interval,
                        persisted_anchor_utc,
                    } && interval@ == seconds && persisted_anchor_utc@ == wall_now@ + seconds
                        * 1_000_000_000)
                },
            }
        },
{
}

/// Options that contradict a calendar time are refused: a day has no rollover, and universal time has no
/// repeated hours.
pub proof fn lemma_contradictory_calendar_options_are_refused(
    options: ScheduleOptions,
    when: Seq<Seq<char>>,
    configured: Seq<char>,
    wall_now: UtcTimestamp,
    elapsed_now: ElapsedInstant,
    local: Option<String>,
    syntax: CalendarSyntax,
    r: Result<Schedule, Seq<char>>,
)
    requires
        asks_for_calendar_time(options, when),
        calendar_matches(
            joined(when, " "@),
            Ok::<CalendarSyntax, CalendarSyntaxError>(syntax),
        ),
        schedule_matches(options, when, configured, wall_now, elapsed_now, local, r),
    ensures
        options.no_rollover && !(syntax is Time) ==> r == Err::<Schedule, Seq<char>>(
            "--no-rollover is only valid with a time of day"@,
        ),
        !(options.no_rollover && !(syntax is Time)) && options.utc && options.dst is Some ==> r
            == Err::<Schedule, Seq<char>>("--dst is not meaningful with --utc"@),
{
}

// ---------------------------------------------------------------------------------------------
// The job
// ---------------------------------------------------------------------------------------------
/// A new job is due when its schedule is first due, which is in the future; it waits to be picked up and
/// is at its first revision. What it does when its deadline is missed is what was asked for; else an
/// interval goes on with its next occurrence, and a job that is due once is held.
pub proof fn lemma_new_job_holds_what_was_asked_for(
    options: ScheduleOptions,
    default_runtime: RuntimeTier,
    wall_now: UtcTimestamp,
    owner_uid: u32,
    schedule: Schedule,
    execution: ExecutionSpec,
    job: Job,
)
    requires
        built_job(
            options,
            default_runtime,
            wall_now,
            owner_uid,
            Ok::<Schedule, Seq<char>>(schedule),
            Ok::<ExecutionSpec, Seq<char>>(execution),
            Ok::<Job, Seq<char>>(job),
        ),
    ensures
        job@.state == JobState::Scheduled,
        job@.revision@ == 1,
        job@.schedule == schedule@,
        job@.execution == execution@,
        job@.owner_uid == owner_uid,
        job@.created_at_utc == wall_now && job@.updated_at_utc == wall_now,
        job@.next_due_utc@ > wall_now@,
        job@.next_due_utc == match schedule@ {
            ScheduleModel::OneShotRelative { persisted_due_utc, .. } => persisted_due_utc,
            ScheduleModel::OneShotAbsolute { resolved_due_utc, .. } => resolved_due_utc,
            ScheduleModel::RecurringInterval { persisted_anchor_utc, .. } => persisted_anchor_utc,
        },
        schedule@ matches ScheduleModel::OneShotAbsolute { timezone_database_version, .. }
            ==> job@.timezone_database_version == timezone_database_version,
        job@.name == optional_text(options.name),
        job@.description == optional_text(options.description),
        job@.runtime_tier == RuntimeTier::Durable <==> options.durable || default_runtime
            == RuntimeTier::Durable,
        options.missed == Some(MissedArg::Hold) ==> job@.missed_policy == MissedPolicy::Hold,
        options.missed == Some(MissedArg::Skip) ==> job@.missed_policy == MissedPolicy::Skip,
        options.missed == Some(MissedArg::RunLatest) ==> job@.missed_policy
            == MissedPolicy::RunLatest,
        options.missed is None && options.every is Some ==> job@.missed_policy
            == MissedPolicy::Skip,
        options.missed is None && options.every is None ==> job@.missed_policy
            == MissedPolicy::Hold,
{
}

/// A job without a name and a note is made wherever its deadline is in the future.
pub proof fn lemma_job_is_made_where_it_can_be(
    options: ScheduleOptions,
    default_runtime: RuntimeTier,
    wall_now: UtcTimestamp,
    owner_uid: u32,
    schedule: Schedule,
    execution: ExecutionSpec,
    r: Result<Job, Seq<char>>,
)
    requires
        built_job(
            options,
            default_runtime,
            wall_now,
            owner_uid,
            Ok::<Schedule, Seq<char>>(schedule),
            Ok::<ExecutionSpec, Seq<char>>(execution),
            r,
        ),
        schedule@.next_due()@ > wall_now@,
        options.name is None && options.description is None,
    ensures
        r is Ok,
{
}

// ---------------------------------------------------------------------------------------------
// The command
// ---------------------------------------------------------------------------------------------
/// The arguments of a command are kept as they were given, one by one: they are never joined into a line
/// for a shell. A shell is used only where it was asked for, and it is the configured one.
pub proof fn lemma_command_is_kept_as_given(
    args: SchedulingArgs,
    default_shell: Seq<char>,
    directory: DirectoryFacts,
    environment: Result<Environment, String>,
    terminal: Result<String, String>,
    execution: ExecutionSpec,
)
    requires
        execution_matches(
            args,
            default_shell,
            directory,
            environment,
            terminal,
            Ok::<ExecutionSpec, Seq<char>>(execution),
        ),
    ensures
        execution@.argv.len() == args.argv@.len(),
        forall|i: int|
            0 <= i < args.argv@.len() ==> (#[trigger] args.argv@[i]) is Some && execution@.argv[i]
                == args.argv@[i]->0@,
        execution@.mode == if args.options.shell {
            ExecutionMode::Shell
        } else {
            ExecutionMode::Direct
        },
        execution@.shell_path == if args.options.shell {
            Some(default_shell)
        } else {
            None::<Seq<char>>
        },
        directory matches Ok((path, true)) && execution@.working_directory == path@,
        environment matches Ok(values) && execution@.environment == values@,
        execution@.notify_tty == if args.options.tty {
            Some(terminal->Ok_0@)
        } else {
            None::<Seq<char>>
        },
        args.options.tty ==> terminal is Ok,
{
    lemma_arguments_in_order(args.argv@);
}

proof fn lemma_arguments_in_order(argv: Seq<Option<String>>)
    ensures
        command_texts(argv) matches Some(list) ==> {
            &&& list.len() == argv.len()
            &&& forall|i: int|
                0 <= i < argv.len() ==> (#[trigger] argv[i]) is Some && list[i] == argv[i]->0@
        },
    decreases argv.len(),
{
    if argv.len() > 0 && command_texts(argv) is Some {
        lemma_arguments_in_order(argv.drop_last());
        let list = command_texts(argv)->0;
        assert forall|i: int| 0 <= i < argv.len() implies (#[trigger] argv[i]) is Some && list[i]
            == argv[i]->0@ by {
            if i < argv.len() - 1 {
                assert(argv.drop_last()[i] == argv[i]);
            }
        }
    }
}

/// A label may be kept: it has at most so many characters, and none of them is NUL.
pub open spec fn fits_label(text: Option<String>, maximum: int) -> bool {
    text matches Some(inner) ==> inner@.len() <= maximum && !inner@.contains('\0')
}

/// A job is made exactly where its deadline is in the future and its name and note can be kept; what is
/// wrong with its schedule or its command is reported as it is.
pub proof fn lemma_jobs_are_refused_for_a_reason(
    options: ScheduleOptions,
    default_runtime: RuntimeTier,
    wall_now: UtcTimestamp,
    owner_uid: u32,
    schedule: Result<Schedule, Seq<char>>,
    execution: Result<ExecutionSpec, Seq<char>>,
    r: Result<Job, Seq<char>>,
)
    requires
        built_job(options, default_runtime, wall_now, owner_uid, schedule, execution, r),
    ensures
        schedule matches Err(error) ==> r == Err::<Job, Seq<char>>(error),
        schedule is Ok ==> (execution matches Err(error) ==> r == Err::<Job, Seq<char>>(error)),
        schedule is Ok && execution is Ok ==> (r is Ok <==> schedule->Ok_0@.next_due()@ > wall_now@
            && fits_label(options.name, 256) && fits_label(options.description, 4096)),
{
}

/// A command is accepted wherever it can be kept: its arguments are texts, its directory is one, its
/// environment could be made, and nothing of it is too large.
pub proof fn lemma_command_is_accepted_where_it_can_be(
    args: SchedulingArgs,
    default_shell: Seq<char>,
    path: String,
    environment: Environment,
    terminal: Result<String, String>,
    arguments: Seq<Seq<char>>,
    r: Result<ExecutionSpec, Seq<char>>,
)
    requires
        execution_matches(
            args,
            default_shell,
            Ok::<(String, bool), String>((path, true)),
            Ok::<Environment, String>(environment),
            terminal,
            r,
        ),
        command_texts(args.argv@) == Some(arguments),
        execution_fault(
            if args.options.shell {
                ExecutionMode::Shell
            } else {
                ExecutionMode::Direct
            },
            arguments,
            path@,
            environment@,
        ) is None,
        args.options.shell ==> default_shell.len() > 0 && default_shell[0] == '/',
        !args.options.tty,
    ensures
        r is Ok,
{
}

/// A directory that is none, a missing terminal and an environment that could not be made refuse the
/// command.
pub proof fn lemma_commands_are_refused_for_a_reason(
    args: SchedulingArgs,
    default_shell: Seq<char>,
    directory: DirectoryFacts,
    environment: Result<Environment, String>,
    terminal: Result<String, String>,
    r: Result<ExecutionSpec, Seq<char>>,
)
    requires
        execution_matches(args, default_shell, directory, environment, terminal, r),
    ensures
        directory is Err ==> r is Err,
        directory matches Ok((_, false)) ==> r is Err,
        environment is Err ==> r is Err,
        args.options.tty && terminal is Err ==> r is Err,
        args.options.shell && !(default_shell.len() > 0 && default_shell[0] == '/') ==> r is Err,
{
}

} // verus!
