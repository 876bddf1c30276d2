//! What is spawned for an execution.
use vstd::prelude::*;

use super::process::{
    process_error_message, process_found, NativeProcessInspector, ProcessError, ProcessTable,
};
use crate::domain::execution::{ExecutionMode, ExecutionModel, ExecutionSpec};
use crate::domain::run::{IdentityModel, ProcessIdentitySnapshot};
use crate::text::{copy_text, push_text, texts};

verus! {

broadcast use vstd::seq::group_seq_axioms;

/// Why a command was not spawned.
#[derive(Debug, PartialEq, Eq)]
pub enum SpawnError {
    InvalidShellConfiguration,
    Io(String),
    ExitedBeforeInspection,
    Inspection(ProcessError),
    ProcessGroupSetup,
}

/// The message of a spawn error.
pub open spec fn spawn_message(error: SpawnError) -> Seq<char> {
    match error {
        SpawnError::InvalidShellConfiguration => "invalid shell execution configuration"@,
        SpawnError::Io(detail) => "command spawn failed: "@ + detail@,
        SpawnError::ExitedBeforeInspection => {
            "spawned command exited before identity inspection"@
        },
        SpawnError::Inspection(inner) => "spawned command identity inspection failed: "@
            + process_error_message(inner),
        SpawnError::ProcessGroupSetup => {
            "spawned command did not enter its dedicated process group"@
        },
    }
}

impl SpawnError {
    /// The error as a message.
    pub fn to_string(&self) -> (text: String)
        ensures
            text@ == spawn_message(*self),
    {
        match self {
            SpawnError::InvalidShellConfiguration => {
                "invalid shell execution configuration".to_owned()
            },
            SpawnError::Io(detail) => {
                let mut out: String = "command spawn failed: ".to_owned();
                push_text(&mut out, detail.as_str());
                out
            },
            SpawnError::ExitedBeforeInspection => {
                "spawned command exited before identity inspection".to_owned()
            },
            SpawnError::Inspection(inner) => {
                let mut out: String = "spawned command identity inspection failed: ".to_owned();
                push_text(&mut out, inner.to_string().as_str());
                out
            },
            SpawnError::ProcessGroupSetup => {
                "spawned command did not enter its dedicated process group".to_owned()
            },
        }
    }
}

/// A program with its arguments.
#[derive(Debug, PartialEq, Eq)]
pub struct CommandLine {
    pub program: String,
    pub arguments: Vec<String>,
}

/// The command line of an execution: its arguments as they are, or its one argument handed to the
/// shell.
pub open spec fn runs_as(spec: ExecutionModel, line: CommandLine) -> bool {
    match spec.mode {
        ExecutionMode::Direct => spec.argv.len() > 0 && line.program@ == spec.argv[0] && texts(
            line.arguments@,
        ) == spec.argv.skip(1),
        ExecutionMode::Shell => spec.argv.len() > 0 && spec.shell_path == Some(line.program@)
            && texts(line.arguments@) == seq!["-c"@, spec.argv[0]],
    }
}

/// The command line of an execution.
pub fn command_line(execution: &ExecutionSpec) -> (r: Result<CommandLine, SpawnError>)
    ensures
        r matches Ok(line) && runs_as(execution@, line),
{
    let argv: &Vec<String> = execution.argv();
    match execution.mode() {
        ExecutionMode::Direct => {
            let mut arguments: Vec<String> = Vec::new();
            let mut index: usize = 1;
            while index < argv.len()
                invariant
                    1 <= index <= argv@.len(),
                    texts(arguments@) == texts(argv@).subrange(1, index as int),
                decreases argv@.len() - index,
            {
                let ghost before = arguments@;
                arguments.push(copy_text(argv[index].as_str()));
                assert(texts(arguments@) =~= texts(before).push(texts(argv@)[index as int]));
                assert(texts(arguments@) =~= texts(argv@).subrange(1, index + 1));
                index += 1;
            }
            assert(texts(argv@).subrange(1, argv@.len() as int) =~= texts(argv@).skip(1));
            Ok(CommandLine { program: copy_text(argv[0].as_str()), arguments })
        },
        ExecutionMode::Shell => match execution.shell_path() {
            Some(shell) => {
                let mut arguments: Vec<String> = Vec::new();
                arguments.push("-c".to_owned());
                arguments.push(copy_text(argv[0].as_str()));
                assert(texts(arguments@) =~= seq!["-c"@, texts(argv@)[0]]);
                Ok(CommandLine { program: copy_text(shell), arguments })
            },
            None => Err(SpawnError::InvalidShellConfiguration),
        },
    }
}

/// The process leads a group of its own.
pub open spec fn leads_group(identity: IdentityModel) -> bool {
    identity.pid == identity.process_group_id
}

/// What looking at a spawned command gives: it has to lead its own process group.
pub open spec fn accepted_child(
    inspected: Result<Option<ProcessIdentitySnapshot>, ProcessError>,
) -> Result<ProcessIdentitySnapshot, SpawnError> {
    match inspected {
        Ok(Some(identity)) => if leads_group(identity@) {
            Ok(identity)
        } else {
            Err(SpawnError::ProcessGroupSetup)
        },
        Ok(None) => Err(SpawnError::ExitedBeforeInspection),
        Err(error) => Err(SpawnError::Inspection(error)),
    }
}

/// The identity of a spawned command, which has to lead its own process group.
pub fn accept_child(inspected: Result<Option<ProcessIdentitySnapshot>, ProcessError>) -> (r: Result<
    ProcessIdentitySnapshot,
    SpawnError,
>)
    ensures
        r == accepted_child(inspected),
{
    match inspected {
        Ok(Some(identity)) => {
            let group: i64 = identity.process_group_id as i64;
            if identity.pid as i64 == group {
                Ok(identity)
            } else {
                Err(SpawnError::ProcessGroupSetup)
            }
        },
        Ok(None) => Err(SpawnError::ExitedBeforeInspection),
        Err(error) => Err(SpawnError::Inspection(error)),
    }
}

/// Spawns commands and tells which process each became.
pub struct NativeProcessRunner<Table> {
    pub inspector: NativeProcessInspector<Table>,
}

impl<Table: ProcessTable> NativeProcessRunner<Table> {
    /// A runner with an inspector.
    pub fn new(inspector: NativeProcessInspector<Table>) -> (r: NativeProcessRunner<Table>)
        ensures
            r.inspector == inspector,
    {
        NativeProcessRunner { inspector }
    }

    /// The identity of a command that was just spawned.
    pub fn identify(&self, pid: u32) -> (r: Result<ProcessIdentitySnapshot, SpawnError>)
        ensures
            exists|inspected: Result<Option<ProcessIdentitySnapshot>, ProcessError>|
                #[trigger] process_found(self.inspector, pid, inspected) && r == accepted_child(
                    inspected,
                ),
    {
        let inspected: Result<Option<ProcessIdentitySnapshot>, ProcessError> =
            self.inspector.inspect(pid);
        assert(process_found(self.inspector, pid, inspected));
        accept_child(inspected)
    }
}

} // verus!
