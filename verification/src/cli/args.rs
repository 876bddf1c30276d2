//! Typed command-line arguments.
use vstd::prelude::*;

use crate::text::{contains_char, split_at, split_once, text_eq, texts};

verus! {

broadcast use vstd::seq::group_seq_axioms;

/// When output is coloured.
#[derive(Clone, Copy, Debug, PartialEq, Eq, Structural)]
pub enum ColorArg {
    Auto,
    Always,
    Never,
}

/// How a repeated local time is resolved.
#[derive(Clone, Copy, Debug, PartialEq, Eq, Structural)]
pub enum DstArg {
    Reject,
    Earlier,
    Later,
}

/// What recovery does after a missed deadline.
#[derive(Clone, Copy, Debug, PartialEq, Eq, Structural)]
pub enum MissedArg {
    Hold,
    RunLatest,
    Skip,
}

/// Options of every command.
#[derive(Debug, PartialEq, Eq)]
pub struct GlobalArgs {
    pub quiet: bool,
    pub verbose: u8,
    pub json: bool,
    pub color: ColorArg,
    pub state_dir: Option<String>,
}

/// Options of scheduling.
#[derive(Debug, PartialEq, Eq)]
pub struct ScheduleOptions {
    pub dry_run: bool,
    pub utc: bool,
    pub tz: Option<String>,
    pub dst: Option<DstArg>,
    pub no_rollover: bool,
    pub cwd: Option<String>,
    pub shell: bool,
    pub name: Option<String>,
    pub description: Option<String>,
    pub env: Vec<String>,
    pub env_file: Option<String>,
    pub capture_env: bool,
    pub missed: Option<MissedArg>,
    pub durable: bool,
    pub every: Option<String>,
    pub tty: bool,
}

/// What is to be scheduled. An argument of the command that is no text is missing.
#[derive(Debug, PartialEq, Eq)]
pub struct SchedulingArgs {
    pub global: GlobalArgs,
    pub options: ScheduleOptions,
    pub when: Vec<String>,
    pub argv: Vec<Option<String>>,
}

/// What is to be done with the durable service.
#[derive(Clone, Copy, Debug, PartialEq, Eq, Structural)]
pub enum ServiceAction {
    Install,
    Status,
    Uninstall,
}

/// The shell that completions are made for.
#[derive(Clone, Copy, Debug, PartialEq, Eq, Structural)]
pub enum CompletionShell {
    Bash,
    Zsh,
    Fish,
    PowerShell,
}

/// A command on saved jobs.
#[allow(inconsistent_fields)]
#[derive(Debug, PartialEq, Eq)]
pub enum ManagementCommand {
    List { state: Option<String>, limit: usize },
    Show { job: String },
    Cancel { job: String, grace: Option<String> },
    Remove { job: String, cancel: bool, keep_history: bool },
    Run { job: String, yes: bool },
    Ps,
    History { job: Option<String>, limit: usize },
    Output { run: String },
    Doctor,
    Service { action: ServiceAction },
    Version,
    Completions { shell: CompletionShell },
    Man { out_dir: String },
    Supervisor { state_dir: String, runtime_dir: String, service_managed: bool },
    Monitor { state_dir: String, runtime_dir: String, job: String, run: String },
}

/// A command line.
#[derive(Debug, PartialEq, Eq)]
pub enum ParsedCli {
    Schedule(SchedulingArgs),
    Management { global: GlobalArgs, command: ManagementCommand },
}

/// The parts of a command line before it is known what it asks for.
#[derive(Debug, PartialEq, Eq)]
pub struct RawCli {
    pub global: GlobalArgs,
    pub schedule: ScheduleOptions,
    pub when: Vec<String>,
    pub argv: Vec<Option<String>>,
    pub management: Option<ManagementCommand>,
}

/// What is missing from a command line, or there twice.
#[derive(Clone, Copy, Debug, PartialEq, Eq, Structural)]
pub enum UsageError {
    /// There is no command to run.
    MissingCommand,
    /// There is no time to run it at, or there are two.
    TimeConflict,
}

impl UsageError {
    /// The error as a message.
    pub fn message(self) -> (r: &'static str)
        ensures
            r@ == match self {
                UsageError::MissingCommand => "scheduling requires `-- PROGRAM [ARG ...]`"@,
                UsageError::TimeConflict => {
                    "provide either WHEN or `--every DURATION`, but not both"@
                },
            },
    {
        match self {
            UsageError::MissingCommand => "scheduling requires `-- PROGRAM [ARG ...]`",
            UsageError::TimeConflict => "provide either WHEN or `--every DURATION`, but not both",
        }
    }
}

/// What a command line asks for. Without a management command it has to name a command to run,
/// and exactly one of a time and an interval.
pub fn interpret(raw: RawCli) -> (r: Result<ParsedCli, UsageError>)
    ensures
        r == match raw.management {
            Some(command) => Ok::<ParsedCli, UsageError>(
                ParsedCli::Management { global: raw.global, command },
            ),
            None => if raw.argv@.len() == 0 {
                Err(UsageError::MissingCommand)
            } else if (raw.when@.len() == 0) == (raw.schedule.every is None) {
                Err(UsageError::TimeConflict)
            } else {
                Ok(
                    ParsedCli::Schedule(
                        SchedulingArgs {
                            global: raw.global,
                            options: raw.schedule,
                            when: raw.when,
                            argv: raw.argv,
                        },
                    ),
                )
            },
        },
{
    match raw.management {
        Some(command) => Ok(ParsedCli::Management { global: raw.global, command }),
        None => {
            if raw.argv.len() == 0 {
                return Err(UsageError::MissingCommand);
            }
            if (raw.when.len() == 0) == raw.schedule.every.is_none() {
                return Err(UsageError::TimeConflict);
            }
            Ok(
                ParsedCli::Schedule(
                    SchedulingArgs {
                        global: raw.global,
                        options: raw.schedule,
                        when: raw.when,
                        argv: raw.argv,
                    },
                ),
            )
        },
    }
}

// ---------------------------------------------------------------------------------------------
// Order
// ---------------------------------------------------------------------------------------------
/// The argument names a management command.
pub open spec fn names_command(value: Seq<char>) -> bool {
    ||| value == "list"@
    ||| value == "ls"@
    ||| value == "show"@
    ||| value == "cancel"@
    ||| value == "rm"@
    ||| value == "run"@
    ||| value == "ps"@
    ||| value == "history"@
    ||| value == "doctor"@
    ||| value == "service"@
    ||| value == "version"@
    ||| value == "completions"@
    ||| value == "help"@
    ||| value == "__supervisor"@
    ||| value == "__monitor"@
    ||| value == "__man"@
}

/// The argument is an option that takes a value, in the same argument or in the next.
pub open spec fn takes_value(value: Seq<char>) -> bool {
    let name = match split_at(value, '=') {
        Some((head, _)) => head,
        None => value,
    };
    ||| name == "--color"@
    ||| name == "--state-dir"@
    ||| name == "--tz"@
    ||| name == "--dst"@
    ||| name == "--cwd"@
    ||| name == "--name"@
    ||| name == "--description"@
    ||| name == "--env"@
    ||| name == "--env-file"@
    ||| name == "--missed"@
    ||| name == "--every"@
}

/// The position of the first management command at or after `index`. Values of options are passed
/// over, and nothing after `--` counts.
pub open spec fn command_position(args: Seq<Seq<char>>, index: int, skip: bool) -> Option<int>
    decreases args.len() - index,
{
    if index < 0 || index >= args.len() {
        None
    } else if skip {
        command_position(args, index + 1, false)
    } else if args[index] == "--"@ {
        None
    } else if takes_value(args[index]) {
        command_position(args, index + 1, !args[index].contains('='))
    } else if names_command(args[index]) {
        Some(index)
    } else {
        command_position(args, index + 1, false)
    }
}

/// Whether the argument names a management command.
pub fn is_management_name(value: &str) -> (r: bool)
    ensures
        r == names_command(value@),
{
    text_eq(value, "list") || text_eq(value, "ls") || text_eq(value, "show") || text_eq(
        value,
        "cancel",
    ) || text_eq(value, "rm") || text_eq(value, "run") || text_eq(value, "ps") || text_eq(
        value,
        "history",
    ) || text_eq(value, "doctor") || text_eq(value, "service")
        || text_eq(value, "version") || text_eq(value, "completions") || text_eq(value, "help")
        || text_eq(value, "__supervisor") || text_eq(value, "__monitor") || text_eq(value, "__man")
}

/// Whether the argument is an option that takes a value.
pub fn option_takes_value(value: &str) -> (r: bool)
    ensures
        r == takes_value(value@),
{
    let name: String = match split_once(value, '=') {
        Some((head, _)) => head,
        None => value.to_owned(),
    };
    let text: &str = name.as_str();
    text_eq(text, "--color") || text_eq(text, "--state-dir") || text_eq(text, "--tz") || text_eq(
        text,
        "--dst",
    ) || text_eq(text, "--cwd") || text_eq(text, "--name") || text_eq(text, "--description")
        || text_eq(text, "--env") || text_eq(text, "--env-file") || text_eq(text, "--missed")
        || text_eq(text, "--every")
}

/// Where the management command stands that has to come first, if it does not.
pub open spec fn misplaced_command(args: Seq<Seq<char>>) -> Option<int> {
    if args.len() < 3 || names_command(args[1]) {
        None
    } else {
        command_position(args, 1, false)
    }
}

/// The position of the management command that has to come first, if it does not. The first
/// argument is the program.
pub fn normalize_management_order(args: &Vec<String>) -> (r: Option<usize>)
    ensures
        match r {
            Some(index) => misplaced_command(texts(args@)) == Some(index as int) && index
                < args@.len(),
            None => misplaced_command(texts(args@)) is None,
        },
{
    if args.len() < 3 {
        return None;
    }
    assert(texts(args@)[1] == args@[1]@);
    if is_management_name(args[1].as_str()) {
        return None;
    }
    let mut skip: bool = false;
    let mut index: usize = 1;
    while index < args.len()
        invariant
            1 <= index <= args@.len(),
            misplaced_command(texts(args@)) == command_position(texts(args@), index as int, skip),
        decreases args@.len() - index,
    {
        let value: &str = args[index].as_str();
        assert(texts(args@)[index as int] == value@);
        if skip {
            skip = false;
        } else if text_eq(value, "--") {
            return None;
        } else if option_takes_value(value) {
            skip = !contains_char(value, '=');
        } else if is_management_name(value) {
            return Some(index);
        }
        index += 1;
    }
    None
}

/// Moves an argument to the place after the program.
pub fn move_to_front<T>(args: &mut Vec<T>, index: usize)
    requires
        1 <= index < old(args)@.len(),
    ensures
        final(args)@ == old(args)@.remove(index as int).insert(1, old(args)@[index as int]),
{
    let value: T = args.remove(index);
    args.insert(1, value);
}

/// A command that was moved to the front stands there, so that the order is settled.
pub proof fn lemma_moved_command_is_first(args: Seq<Seq<char>>, index: int)
    requires
        misplaced_command(args) == Some(index),
    ensures
        1 <= index < args.len(),
        names_command(args[index]),
        misplaced_command(args.remove(index).insert(1, args[index])) is None,
{
    lemma_position_names_command(args, 1, false);
    let moved = args.remove(index).insert(1, args[index]);
    assert(moved[1] == args[index]);
}

proof fn lemma_position_names_command(args: Seq<Seq<char>>, index: int, skip: bool)
    requires
        1 <= index,
    ensures
        command_position(args, index, skip) matches Some(at) ==> index <= at < args.len()
            && names_command(args[at]),
    decreases args.len() - index,
{
    if index < args.len() {
        lemma_position_names_command(args, index + 1, false);
        lemma_position_names_command(args, index + 1, !args[index].contains('='));
    }
}

/// Whether the arguments before `--` ask for JSON output.
pub fn json_requested(args: &Vec<String>) -> (r: bool)
    ensures
        r == asks_for_json(texts(args@)),
{
    let mut index: usize = 0;
    assert(texts(args@).skip(0) =~= texts(args@));
    while index < args.len()
        invariant
            index <= args@.len(),
            asks_for_json(texts(args@)) == asks_for_json(texts(args@).skip(index as int)),
        decreases args@.len() - index,
    {
        proof {
            let rest = texts(args@).skip(index as int);
            assert(rest[0] == args@[index as int]@);
            assert(rest.drop_first() =~= texts(args@).skip(index + 1));
        }
        if text_eq(args[index].as_str(), "--") {
            return false;
        }
        if text_eq(args[index].as_str(), "--json") {
            return true;
        }
        index += 1;
    }
    false
}

/// One of the arguments before `--` is `--json`.
pub open spec fn asks_for_json(args: Seq<Seq<char>>) -> bool
    decreases args.len(),
{
    if args.len() == 0 || args[0] == "--"@ {
        false
    } else {
        args[0] == "--json"@ || asks_for_json(args.drop_first())
    }
}

} // verus!
