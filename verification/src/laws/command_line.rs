//! How a command line is understood.
use crate::cli::args::{
    asks_for_json, command_position, interpret, is_management_name, json_requested, move_to_front,
    names_command, normalize_management_order, option_takes_value, takes_value, ParsedCli, RawCli,
    UsageError,
};
use crate::text::{first_of, lemma_first_of_is, texts};
use vstd::prelude::*;

verus! {

broadcast use vstd::seq::group_seq_axioms;

/// A management command is taken as it is. Otherwise there is a command to run and exactly one of a time
/// and an interval, and all of it is kept.
pub proof fn lemma_submission_has_one_time(raw: RawCli, r: Result<ParsedCli, UsageError>)
    requires
        call_ensures(interpret, (raw,), r),
    ensures
        match r {
            Ok(ParsedCli::Management { global, command }) => raw.management == Some(command)
                && global == raw.global,
            Ok(ParsedCli::Schedule(args)) => {
                &&& raw.management is None
                &&& args.argv == raw.argv && args.argv@.len() > 0
                &&& args.when == raw.when && args.options == raw.schedule
                &&& args.global == raw.global
                &&& args.when@.len() > 0 <==> args.options.every is None
            },
            Err(UsageError::MissingCommand) => raw.management is None && raw.argv@.len() == 0,
            Err(UsageError::TimeConflict) => {
                &&& raw.management is None && raw.argv@.len() > 0
                &&& raw.when@.len() > 0 <==> raw.schedule.every is Some
            },
        },
{
}

/// Output is asked for as JSON where one of the arguments before `--` says so; what the command itself is
/// given does not count.
pub proof fn lemma_json_is_asked_for_before_the_command(args: &Vec<String>, r: bool)
    requires
        call_ensures(json_requested, (args,), r),
    ensures
        r <==> exists|i: int|
            {
                &&& 0 <= i < args@.len()
                &&& (#[trigger] texts(args@)[i]) == "--json"@
                &&& forall|j: int| 0 <= j <= i ==> (#[trigger] texts(args@)[j]) != "--"@
            },
{
    reveal_strlit("--");
    reveal_strlit("--json");
    assert("--"@.len() == 2 && "--json"@.len() == 6);
    lemma_json_position(texts(args@));
}

proof fn lemma_json_position(args: Seq<Seq<char>>)
    requires
        "--"@ != "--json"@,
    ensures
        asks_for_json(args) <==> exists|i: int|
            {
                &&& 0 <= i < args.len()
                &&& (#[trigger] args[i]) == "--json"@
                &&& forall|j: int| 0 <= j <= i ==> (#[trigger] args[j]) != "--"@
            },
    decreases args.len(),
{
    if args.len() > 0 {
        let rest = args.drop_first();
        lemma_json_position(rest);
        assert forall|i: int| 0 <= i < rest.len() implies #[trigger] rest[i] == args[i + 1] by {}
        if args[0] != "--"@ && args[0] != "--json"@ && asks_for_json(rest) {
            let i = choose|i: int|
                {
                    &&& 0 <= i < rest.len()
                    &&& (#[trigger] rest[i]) == "--json"@
                    &&& forall|j: int| 0 <= j <= i ==> (#[trigger] rest[j]) != "--"@
                };
            assert(args[i + 1] == "--json"@);
            assert forall|j: int| 0 <= j <= i + 1 implies (#[trigger] args[j]) != "--"@ by {
                if j > 0 {
                    assert(rest[j - 1] != "--"@);
                }
            }
        }
        if exists|i: int|
            {
                &&& 0 <= i < args.len()
                &&& (#[trigger] args[i]) == "--json"@
                &&& forall|j: int| 0 <= j <= i ==> (#[trigger] args[j]) != "--"@
            } {
            let i = choose|i: int|
                {
                    &&& 0 <= i < args.len()
                    &&& (#[trigger] args[i]) == "--json"@
                    &&& forall|j: int| 0 <= j <= i ==> (#[trigger] args[j]) != "--"@
                };
            assert(args[0] != "--"@);
            if i > 0 {
                assert(rest[i - 1] == "--json"@);
                assert forall|j: int| 0 <= j <= i - 1 implies (#[trigger] rest[j]) != "--"@ by {
                    assert(args[j + 1] != "--"@);
                }
            }
        }
    }
}

/// The command line is put in order by moving its management command behind the program; the rest keeps
/// its order.
pub proof fn lemma_moving_keeps_the_rest(before: Vec<String>, after: Vec<String>, index: usize)
    requires
        1 <= index < before@.len(),
        exists|at: &mut Vec<String>|
            {
                &&& #[trigger] call_ensures(move_to_front::<String>, (at, index), ())
                &&& *at == before
                &&& *final(at) == after
            },
    ensures
        after@.len() == before@.len(),
        after@[1] == before@[index as int],
        after@[0] == before@[0],
        after@.remove(1) == before@.remove(index as int),
{
    assert(after@ == before@.remove(index as int).insert(1, before@[index as int]));
    assert(after@.remove(1) =~= before@.remove(index as int));
}

/// A command line has a management command to move only where it does not start with one. What stands
/// behind `--` is the command to run, and what stands behind an option that takes a value is that value:
/// neither is moved.
pub proof fn lemma_only_misplaced_commands_are_moved(args: &Vec<String>, index: usize, at: int)
    requires
        call_ensures(normalize_management_order, (args,), Some(index)),
    ensures
        1 < index < args@.len(),
        names_command(texts(args@)[index as int]),
        !names_command(texts(args@)[1]),
        1 <= at <= index ==> texts(args@)[at] != "--"@ || takes_value(texts(args@)[at - 1]),
{
    let list = texts(args@);
    lemma_nothing_behind_the_command(list, 1, false, at);
}

proof fn lemma_nothing_behind_the_command(args: Seq<Seq<char>>, from: int, skip: bool, at: int)
    requires
        1 <= from,
        skip ==> takes_value(args[from - 1]),
        command_position(args, from, skip) is Some,
    ensures
        from <= command_position(args, from, skip)->0 < args.len(),
        names_command(args[command_position(args, from, skip)->0]),
        from <= at <= command_position(args, from, skip)->0 ==> args[at] != "--"@ || takes_value(
            args[at - 1],
        ),
    decreases args.len() - from,
{
    names_are_no_separator();
    if skip {
        lemma_nothing_behind_the_command(args, from + 1, false, at);
    } else if takes_value(args[from]) {
        lemma_nothing_behind_the_command(args, from + 1, !args[from].contains('='), at);
    } else if !names_command(args[from]) {
        lemma_nothing_behind_the_command(args, from + 1, false, at);
    }
}

proof fn names_are_no_separator()
    ensures
        !names_command("--"@),
{
    reveal_strlit("--");
    reveal_strlit("ls");
    reveal_strlit("rm");
    reveal_strlit("ps");
    reveal_strlit("list");
    reveal_strlit("show");
    reveal_strlit("cancel");
    reveal_strlit("run");
    reveal_strlit("history");
    reveal_strlit("doctor");
    reveal_strlit("service");
    reveal_strlit("version");
    reveal_strlit("completions");
    reveal_strlit("help");
    reveal_strlit("__supervisor");
    reveal_strlit("__monitor");
    reveal_strlit("__man");
    assert("--"@.len() == 2 && "list"@.len() == 4 && "show"@.len() == 4 && "cancel"@.len() == 6);
    assert("--"@[0] == '-' && "ls"@[0] == 'l' && "rm"@[0] == 'r' && "ps"@[0] == 'p');
    assert("run"@.len() == 3 && "history"@.len() == 7 && "doctor"@.len() == 6 && "service"@.len()
        == 7 && "version"@.len() == 7 && "completions"@.len() == 11 && "help"@.len() == 4
        && "__supervisor"@.len() == 12 && "__monitor"@.len() == 9 && "__man"@.len() == 5);
}

/// A management command behind options is found: the first word that is one, is no value of an option and
/// does not stand behind `--`.
pub proof fn lemma_command_behind_options_is_found(args: &Vec<String>, r: Option<usize>, at: int)
    requires
        call_ensures(normalize_management_order, (args,), r),
        2 <= at < args@.len(),
        names_command(texts(args@)[at]),
        !takes_value(texts(args@)[at]),
        forall|i: int|
            1 <= i < at ==> {
                &&& (#[trigger] texts(args@)[i]) != "--"@
                &&& !names_command(texts(args@)[i])
                &&& !takes_value(texts(args@)[i])
            },
    ensures
        r == Some(at as usize),
{
    names_are_no_separator();
    assert(!names_command(texts(args@)[1]));
    lemma_first_command(texts(args@), 1, at);
}

proof fn lemma_first_command(args: Seq<Seq<char>>, from: int, at: int)
    requires
        1 <= from <= at < args.len(),
        names_command(args[at]),
        args[at] != "--"@,
        !takes_value(args[at]),
        forall|i: int|
            from <= i < at ==> {
                &&& (#[trigger] args[i]) != "--"@
                &&& !names_command(args[i])
                &&& !takes_value(args[i])
            },
    ensures
        command_position(args, from, false) == Some(at),
    decreases at - from,
{
    if from < at {
        lemma_first_command(args, from + 1, at);
    }
}

/// These options take a value, in the same word or in the next.
pub proof fn lemma_options_with_values(value: &str, r: bool)
    requires
        call_ensures(option_takes_value, (value,), r),
        !value@.contains('='),
    ensures
        r <==> value@ == "--color"@ || value@ == "--state-dir"@ || value@ == "--tz"@ || value@
            == "--dst"@ || value@ == "--cwd"@ || value@ == "--name"@ || value@ == "--description"@
            || value@ == "--env"@ || value@ == "--env-file"@ || value@ == "--missed"@ || value@
            == "--every"@,
{
    let at = first_of(value@, '=');
    lemma_first_of_is(value@, '=', value@.len() as int);
}

/// These words are management commands, and nothing else is.
pub proof fn lemma_management_commands(value: &str, r: bool)
    requires
        call_ensures(is_management_name, (value,), r),
    ensures
        r <==> value@ == "list"@ || value@ == "ls"@ || value@ == "show"@ || value@ == "cancel"@
            || value@ == "rm"@ || value@ == "run"@ || value@ == "ps"@ || value@ == "history"@
            || value@ == "doctor"@ || value@ == "service"@ || value@ == "version"@ || value@
            == "completions"@ || value@ == "help"@ || value@ == "__supervisor"@ || value@
            == "__monitor"@ || value@ == "__man"@,
{
}

} // verus!
