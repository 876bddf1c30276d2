//! Which commands may be kept.
use crate::domain::environment::{entries_size, Entries, Environment};
use crate::domain::execution::{argument_fault, argv_size, ExecutionMode, ExecutionSpec};
use crate::domain::execution_error::ExecutionError;
use crate::text::{texts, utf8_len};
use vstd::prelude::*;

verus! {

broadcast use vstd::seq::group_seq_axioms;

/// An argument has at most 128 KiB and no NUL.
pub open spec fn fits_argument(argument: Seq<char>) -> bool {
    !argument.contains('\0') && utf8_len(argument) <= 131_072
}

proof fn lemma_argument_faults(argv: Seq<Seq<char>>)
    ensures
        argument_fault(argv) is None <==> forall|i: int|
            0 <= i < argv.len() ==> fits_argument(#[trigger] argv[i]),
        argument_fault(argv) matches Some(error) ==> error is ContainsNul || error
            is ArgumentTooLarge,
    decreases argv.len(),
{
    if argv.len() > 0 {
        let rest = argv.drop_first();
        lemma_argument_faults(rest);
        assert forall|i: int| 0 <= i < rest.len() implies #[trigger] rest[i] == argv[i + 1] by {}
        if argument_fault(argv) is None {
            assert forall|i: int| 0 <= i < argv.len() implies fits_argument(#[trigger] argv[i]) by {
                if i > 0 {
                    assert(fits_argument(rest[i - 1]));
                }
            }
        }
        if forall|i: int| 0 <= i < argv.len() ==> fits_argument(#[trigger] argv[i]) {
            assert(fits_argument(argv[0]));
            assert forall|i: int| 0 <= i < rest.len() implies fits_argument(#[trigger] rest[i]) by {
                assert(fits_argument(argv[i + 1]));
            }
        }
    }
}

/// A command has arguments, one line where a shell reads it, an absolute directory, and at most a
/// mebibyte in all. It is kept as it was given; only a command for a shell has one.
pub proof fn lemma_commands_are_bounded(
    mode: ExecutionMode,
    argv: Vec<String>,
    directory: String,
    environment: Environment,
    r: Result<ExecutionSpec, ExecutionError>,
)
    requires
        call_ensures(ExecutionSpec::new, (mode, argv, directory, environment), r),
    ensures
        r is Ok <==> {
            &&& argv@.len() > 0
            &&& mode == ExecutionMode::Shell ==> argv@.len() == 1
            &&& forall|i: int|
                0 <= i < argv@.len() ==> fits_argument(#[trigger] texts(argv@)[i])
            &&& directory@.len() > 0 && directory@[0] == '/'
            &&& argv_size(texts(argv@)) + entries_size(environment@) + utf8_len(directory@)
                <= 1_048_576
        },
        r matches Ok(spec) ==> {
            &&& spec@.mode == mode
            &&& spec@.argv == texts(argv@)
            &&& spec@.working_directory == directory@
            &&& spec@.environment == environment@
            &&& spec@.notify_tty is None
            &&& mode == ExecutionMode::Shell <==> spec@.shell_path is Some
            &&& spec@.shell_path matches Some(shell) ==> shell == "/bin/sh"@
        },
        r matches Err(error) ==> match error {
            ExecutionError::EmptyArguments => argv@.len() == 0,
            ExecutionError::ShellArgumentCount => mode == ExecutionMode::Shell && argv@.len() != 1,
            ExecutionError::WorkingDirectoryNotAbsolute => !(directory@.len() > 0 && directory@[0]
                == '/'),
            _ => argv@.len() > 0,
        },
{
    lemma_argument_faults(texts(argv@));
}

/// Every pair of an environment counts with two bytes more than its name and its value.
pub proof fn lemma_pairs_are_counted(entries: Entries, name: Seq<char>, value: Seq<char>)
    ensures
        entries_size(entries.push((name, value))) == entries_size(entries) + utf8_len(name)
            + utf8_len(value) + 2,
        entries_size(Seq::empty()) == 0,
{
    assert(entries.push((name, value)).drop_last() =~= entries);
}

/// The arguments count with their bytes.
pub proof fn lemma_arguments_are_counted(argv: Seq<Seq<char>>, argument: Seq<char>)
    ensures
        argv_size(argv.push(argument)) == argv_size(argv) + utf8_len(argument),
        argv_size(Seq::empty()) == 0,
{
    assert(argv.push(argument).drop_last() =~= argv);
}

/// The shell of a command can be chosen where a shell reads it; a terminal can be recorded while the
/// command stays small enough. Nothing else of the command changes, and a refusal changes nothing.
pub proof fn lemma_command_options_change_one_thing(
    before: ExecutionSpec,
    after_shell: ExecutionSpec,
    after_tty: ExecutionSpec,
    shell: String,
    tty: String,
    r: Result<(), ExecutionError>,
    s: Result<(), ExecutionError>,
)
    requires
        exists|at: &mut ExecutionSpec|
            {
                &&& #[trigger] call_ensures(ExecutionSpec::set_shell_path, (at, shell), r)
                &&& *at == before
                &&& *final(at) == after_shell
            },
        exists|at: &mut ExecutionSpec|
            {
                &&& #[trigger] call_ensures(ExecutionSpec::set_notify_tty, (at, tty), s)
                &&& *at == before
                &&& *final(at) == after_tty
            },
    ensures
        r is Ok <==> before@.mode == ExecutionMode::Shell && shell@.len() > 0 && shell@[0] == '/',
        r is Ok ==> after_shell@.shell_path == Some(shell@) && after_shell@.argv == before@.argv
            && after_shell@.environment == before@.environment && after_shell@.working_directory
            == before@.working_directory && after_shell@.mode == before@.mode,
        r is Err ==> after_shell@ == before@,
        s is Ok <==> tty@.len() > 0 && !tty@.contains('\0') && argv_size(before@.argv)
            + entries_size(before@.environment) + utf8_len(before@.working_directory) + utf8_len(
            tty@,
        ) <= 1_048_576,
        s is Ok ==> after_tty@.notify_tty == Some(tty@) && after_tty@.argv == before@.argv
            && after_tty@.shell_path == before@.shell_path && after_tty@.environment
            == before@.environment,
        s is Err ==> after_tty@ == before@,
{
}

} // verus!
