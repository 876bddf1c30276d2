//! Command execution specification.
use vstd::prelude::*;

use super::environment::{
    assigned, capped, entries_map, entries_size, lemma_assigned_entries,
    lemma_sorted_entries_unique, pairs_of, valid_entries, Entries, Environment,
};
use super::execution_error::{execution_error_message, ExecutionError};
use crate::path_text::{is_absolute, path_is_absolute};
use crate::text::{
    byte_len, contains_char, copy_text, copy_texts, push_text, texts, utf8_len,
};

verus! {

/// The largest argument, in bytes.
pub const MAX_ARGUMENT_BYTES: usize = 131_072;

/// The largest total of arguments, environment and paths, in bytes.
pub const MAX_SERIALIZED_BYTES: usize = 1_048_576;

/// How a command is started.
#[derive(Clone, Copy, Debug, PartialEq, Eq, Structural)]
pub enum ExecutionMode {
    /// The arguments go to the program as they are.
    Direct,
    /// One string is interpreted by a shell.
    Shell,
}

/// What a command reads.
#[derive(Clone, Copy, Debug, PartialEq, Eq, Structural)]
pub enum StdinPolicy {
    Null,
}

/// Where a command's output goes.
#[derive(Clone, Copy, Debug, PartialEq, Eq, Structural)]
pub enum OutputPolicy {
    BoundedFile,
}

// ---------------------------------------------------------------------------------------------
// What a specification may be
// ---------------------------------------------------------------------------------------------
/// An execution specification with its texts as character sequences. Standard input is always
/// empty, and both outputs go to bounded files.
pub struct ExecutionModel {
    pub mode: ExecutionMode,
    pub argv: Seq<Seq<char>>,
    pub working_directory: Seq<char>,
    pub environment: Entries,
    pub shell_path: Option<Seq<char>>,
    pub notify_tty: Option<Seq<char>>,
}

/// What is wrong with the first bad argument.
pub open spec fn argument_fault(argv: Seq<Seq<char>>) -> Option<ExecutionError>
    decreases argv.len(),
{
    if argv.len() == 0 {
        None
    } else if argv[0].contains('\0') {
        Some(ExecutionError::ContainsNul("argument"))
    } else if utf8_len(argv[0]) > MAX_ARGUMENT_BYTES {
        Some(ExecutionError::ArgumentTooLarge)
    } else {
        argument_fault(argv.drop_first())
    }
}

/// The total of the arguments in bytes.
pub open spec fn argv_size(argv: Seq<Seq<char>>) -> int
    decreases argv.len(),
{
    if argv.len() == 0 {
        0
    } else {
        argv_size(argv.drop_last()) + utf8_len(argv.last())
    }
}

/// The total of arguments, environment and working directory in bytes.
pub open spec fn base_size(
    argv: Seq<Seq<char>>,
    environment: Entries,
    working_directory: Seq<char>,
) -> int {
    argv_size(argv) + entries_size(environment) + utf8_len(working_directory)
}

/// What is wrong with a command, if anything.
pub open spec fn execution_fault(
    mode: ExecutionMode,
    argv: Seq<Seq<char>>,
    working_directory: Seq<char>,
    environment: Entries,
) -> Option<ExecutionError> {
    if argv.len() == 0 {
        Some(ExecutionError::EmptyArguments)
    } else if mode == ExecutionMode::Shell && argv.len() != 1 {
        Some(ExecutionError::ShellArgumentCount)
    } else if argument_fault(argv) is Some {
        argument_fault(argv)
    } else if !is_absolute(working_directory) {
        Some(ExecutionError::WorkingDirectoryNotAbsolute)
    } else if base_size(argv, environment, working_directory) > MAX_SERIALIZED_BYTES {
        Some(ExecutionError::SerializedSizeExceeded)
    } else {
        None
    }
}

/// What is wrong with a terminal device path, if anything.
pub open spec fn tty_fault(spec: ExecutionModel, tty: Seq<char>) -> Option<ExecutionError> {
    if tty.len() == 0 || tty.contains('\0') {
        Some(ExecutionError::InvalidNotifyTty)
    } else if base_size(spec.argv, spec.environment, spec.working_directory) + utf8_len(tty)
        > MAX_SERIALIZED_BYTES {
        Some(ExecutionError::SerializedSizeExceeded)
    } else {
        None
    }
}

/// What holds of every execution specification.
pub open spec fn valid_execution(spec: ExecutionModel) -> bool {
    &&& execution_fault(spec.mode, spec.argv, spec.working_directory, spec.environment) is None
    &&& valid_entries(spec.environment)
    &&& match spec.shell_path {
        Some(path) => spec.mode == ExecutionMode::Shell && is_absolute(path),
        None => spec.mode == ExecutionMode::Direct,
    }
    &&& spec.notify_tty matches Some(tty) ==> tty_fault(spec, tty) is None
}

/// An optional text as a character sequence.
pub open spec fn optional_text(text: Option<String>) -> Option<Seq<char>> {
    match text {
        Some(inner) => Some(inner@),
        None => None,
    }
}

/// A copy of an optional text.
pub fn copy_optional_text(text: &Option<String>) -> (r: Option<String>)
    ensures
        optional_text(r) == optional_text(*text),
{
    match text {
        Some(inner) => Some(copy_text(inner.as_str())),
        None => None,
    }
}

// ---------------------------------------------------------------------------------------------
// The type
// ---------------------------------------------------------------------------------------------
/// What a job runs, where, and with which environment.
#[derive(PartialEq, Eq)]
pub struct ExecutionSpec {
    mode: ExecutionMode,
    argv: Vec<String>,
    working_directory: String,
    environment: Environment,
    stdin: StdinPolicy,
    stdout: OutputPolicy,
    stderr: OutputPolicy,
    shell_path: Option<String>,
    notify_tty: Option<String>,
}

impl View for ExecutionSpec {
    type V = ExecutionModel;

    closed spec fn view(&self) -> ExecutionModel {
        ExecutionModel {
            mode: self.mode,
            argv: texts(self.argv@),
            working_directory: self.working_directory@,
            environment: self.environment@,
            shell_path: optional_text(self.shell_path),
            notify_tty: optional_text(self.notify_tty),
        }
    }
}

/// The total of the arguments in bytes.
fn argument_bytes(argv: &Vec<String>) -> (r: usize)
    ensures
        r == capped(argv_size(texts(argv@))),
{
    let ghost all = texts(argv@);
    let mut total: usize = 0;
    let mut index: usize = 0;
    assert(all.take(0) =~= Seq::<Seq<char>>::empty());
    while index < argv.len()
        invariant
            index <= argv.len(),
            all == texts(argv@),
            total == capped(argv_size(all.take(index as int))),
        decreases argv.len() - index,
    {
        proof {
            assert(all.take(index + 1).drop_last() =~= all.take(index as int));
            assert(all.take(index + 1).last() == argv@[index as int]@);
        }
        total = total.saturating_add(byte_len(argv[index].as_str()));
        index += 1;
    }
    assert(all.take(all.len() as int) =~= all);
    total
}

/// Checks every argument in turn.
fn check_arguments(argv: &Vec<String>) -> (r: Option<ExecutionError>)
    ensures
        r == argument_fault(texts(argv@)),
{
    let ghost all = texts(argv@);
    let mut index: usize = 0;
    assert(all.skip(0) =~= all);
    while index < argv.len()
        invariant
            index <= argv.len(),
            all == texts(argv@),
            argument_fault(all) == argument_fault(all.skip(index as int)),
        decreases argv.len() - index,
    {
        proof {
            assert(all.skip(index as int)[0] == argv@[index as int]@);
            assert(all.skip(index as int).drop_first() =~= all.skip(index + 1));
        }
        let argument: &str = argv[index].as_str();
        if contains_char(argument, '\0') {
            return Some(ExecutionError::ContainsNul("argument"));
        }
        if byte_len(argument) > MAX_ARGUMENT_BYTES {
            return Some(ExecutionError::ArgumentTooLarge);
        }
        index += 1;
    }
    None
}

impl ExecutionSpec {
    #[verifier::type_invariant]
    pub open spec fn wf(self) -> bool {
        valid_execution(self@)
    }

    /// A specification of the given command. A shell command is interpreted by `/bin/sh`.
    pub fn new(
        mode: ExecutionMode,
        argv: Vec<String>,
        working_directory: String,
        environment: Environment,
    ) -> (r: Result<ExecutionSpec, ExecutionError>)
        ensures
            match execution_fault(mode, texts(argv@), working_directory@, environment@) {
                Some(error) => r == Err::<ExecutionSpec, ExecutionError>(error),
                None => r matches Ok(spec) && spec@ == (ExecutionModel {
                    mode,
                    argv: texts(argv@),
                    working_directory: working_directory@,
                    environment: environment@,
                    shell_path: if mode == ExecutionMode::Shell {
                        Some("/bin/sh"@)
                    } else {
                        None
                    },
                    notify_tty: None,
                }),
            },
    {
        if argv.len() == 0 {
            return Err(ExecutionError::EmptyArguments);
        }
        if mode == ExecutionMode::Shell && argv.len() != 1 {
            return Err(ExecutionError::ShellArgumentCount);
        }
        match check_arguments(&argv) {
            Some(error) => {
                return Err(error);
            },
            None => {},
        }
        if !path_is_absolute(working_directory.as_str()) {
            return Err(ExecutionError::WorkingDirectoryNotAbsolute);
        }
        let mut size: usize = argument_bytes(&argv);
        size = size.saturating_add(environment.serialized_size());
        size = size.saturating_add(byte_len(working_directory.as_str()));
        proof {
            use_type_invariant(&environment);
            lemma_sizes_nonnegative(texts(argv@), environment@);
        }
        if size > MAX_SERIALIZED_BYTES {
            return Err(ExecutionError::SerializedSizeExceeded);
        }
        let shell_path: Option<String> = if mode == ExecutionMode::Shell {
            Some("/bin/sh".to_owned())
        } else {
            None
        };
        proof {
            reveal_strlit("/bin/sh");
        }
        Ok(
            ExecutionSpec {
                mode,
                argv,
                working_directory,
                environment,
                stdin: StdinPolicy::Null,
                stdout: OutputPolicy::BoundedFile,
                stderr: OutputPolicy::BoundedFile,
                shell_path,
                notify_tty: None,
            },
        )
    }

    /// How the command is started.
    pub fn mode(&self) -> (r: ExecutionMode)
        ensures
            r == self@.mode,
    {
        self.mode
    }

    /// The arguments, the program first.
    pub fn argv(&self) -> (r: &Vec<String>)
        ensures
            texts(r@) == self@.argv,
            valid_execution(self@),
    {
        proof {
            use_type_invariant(self);
        }
        &self.argv
    }

    /// The directory in which the command runs.
    pub fn working_directory(&self) -> (r: &str)
        ensures
            r@ == self@.working_directory,
    {
        self.working_directory.as_str()
    }

    /// The environment of the command.
    pub fn environment(&self) -> (r: &Environment)
        ensures
            r@ == self@.environment,
    {
        &self.environment
    }

    /// The shell that interprets the command, in shell mode.
    pub fn shell_path(&self) -> (r: Option<&str>)
        ensures
            match r {
                Some(path) => self@.shell_path == Some(path@),
                None => self@.shell_path is None,
            },
    {
        match &self.shell_path {
            Some(path) => Some(path.as_str()),
            None => None,
        }
    }

    /// The device of the terminal that output is echoed to.
    pub fn notify_tty(&self) -> (r: Option<&str>)
        ensures
            match r {
                Some(path) => self@.notify_tty == Some(path@),
                None => self@.notify_tty is None,
            },
    {
        match &self.notify_tty {
            Some(path) => Some(path.as_str()),
            None => None,
        }
    }

    /// Records the device of the terminal that output is echoed to. The device need not exist:
    /// it may be gone by the time that the command runs.
    pub fn set_notify_tty(&mut self, notify_tty: String) -> (r: Result<(), ExecutionError>)
        ensures
            match tty_fault(old(self)@, notify_tty@) {
                Some(error) => r == Err::<(), ExecutionError>(error) && final(self)@
                    == old(self)@,
                None => r is Ok && final(self)@ == (ExecutionModel {
                    notify_tty: Some(notify_tty@),
                    ..old(self)@
                }),
            },
    {
        proof {
            use_type_invariant(&*self);
        }
        if notify_tty.as_str().unicode_len() == 0 || contains_char(notify_tty.as_str(), '\0') {
            return Err(ExecutionError::InvalidNotifyTty);
        }
        let mut size: usize = argument_bytes(&self.argv);
        size = size.saturating_add(self.environment.serialized_size());
        size = size.saturating_add(byte_len(self.working_directory.as_str()));
        size = size.saturating_add(byte_len(notify_tty.as_str()));
        proof {
            lemma_sizes_nonnegative(self@.argv, self@.environment);
        }
        if size > MAX_SERIALIZED_BYTES {
            return Err(ExecutionError::SerializedSizeExceeded);
        }
        self.notify_tty = Some(notify_tty);
        Ok(())
    }

    /// Chooses the shell that interprets the command.
    pub fn set_shell_path(&mut self, shell_path: String) -> (r: Result<(), ExecutionError>)
        ensures
            if old(self)@.mode != ExecutionMode::Shell || !is_absolute(shell_path@) {
                r == Err::<(), ExecutionError>(ExecutionError::InvalidShellPath) && final(self)@
                    == old(self)@
            } else {
                r is Ok && final(self)@ == (ExecutionModel {
                    shell_path: Some(shell_path@),
                    ..old(self)@
                })
            },
    {
        proof {
            use_type_invariant(&*self);
        }
        if self.mode != ExecutionMode::Shell || !path_is_absolute(shell_path.as_str()) {
            return Err(ExecutionError::InvalidShellPath);
        }
        self.shell_path = Some(shell_path);
        Ok(())
    }

    /// The specification as it is stored, secrets included.
    pub fn to_stored(&self) -> (r: StoredExecution)
        ensures
            stored_matches(r, self@),
            valid_execution(self@),
    {
        proof {
            use_type_invariant(self);
        }
        StoredExecution {
            mode: self.mode,
            argv: copy_texts(&self.argv),
            working_directory: copy_text(self.working_directory.as_str()),
            environment: self.environment.to_pairs(),
            stdin: self.stdin,
            stdout: self.stdout,
            stderr: self.stderr,
            shell_path: copy_optional_text(&self.shell_path),
            notify_tty: copy_optional_text(&self.notify_tty),
        }
    }

    /// Checks a stored specification as if it were submitted.
    pub fn from_stored(stored: StoredExecution) -> (r: Result<ExecutionSpec, ExecutionStorageError>)
        ensures
            loaded_matches(stored, r),
    {
        if stored.stdin != StdinPolicy::Null || stored.stdout != OutputPolicy::BoundedFile
            || stored.stderr != OutputPolicy::BoundedFile {
            return Err(ExecutionStorageError::InvalidPolicy);
        }
        let environment: Environment = match Environment::from_pairs(stored.environment) {
            Ok(environment) => environment,
            Err(error) => {
                return Err(ExecutionStorageError::Invalid(error));
            },
        };
        let ghost entries = environment@;
        assert(loaded_entries(stored, entries));
        let mut execution: ExecutionSpec = match ExecutionSpec::new(
            stored.mode,
            stored.argv,
            stored.working_directory,
            environment,
        ) {
            Ok(execution) => execution,
            Err(error) => {
                return Err(ExecutionStorageError::Invalid(error));
            },
        };
        match (stored.mode, stored.shell_path) {
            (ExecutionMode::Direct, None) => {},
            (ExecutionMode::Shell, Some(path)) => {
                match execution.set_shell_path(path) {
                    Ok(_) => {},
                    Err(_) => {
                        return Err(ExecutionStorageError::InvalidShell);
                    },
                }
            },
            _ => {
                return Err(ExecutionStorageError::InvalidShell);
            },
        }
        match stored.notify_tty {
            Some(notify_tty) => {
                match execution.set_notify_tty(notify_tty) {
                    Ok(_) => {},
                    Err(_) => {
                        return Err(ExecutionStorageError::InvalidNotifyTty);
                    },
                }
            },
            None => {},
        }
        Ok(execution)
    }
}

impl Clone for ExecutionSpec {
    fn clone(&self) -> (r: ExecutionSpec)
        ensures
            r@ == self@,
    {
        proof {
            use_type_invariant(self);
        }
        ExecutionSpec {
            mode: self.mode,
            argv: copy_texts(&self.argv),
            working_directory: copy_text(self.working_directory.as_str()),
            environment: self.environment.clone(),
            stdin: self.stdin,
            stdout: self.stdout,
            stderr: self.stderr,
            shell_path: copy_optional_text(&self.shell_path),
            notify_tty: copy_optional_text(&self.notify_tty),
        }
    }
}

// ---------------------------------------------------------------------------------------------
// Storage
// ---------------------------------------------------------------------------------------------
/// The fields of a stored execution specification.
pub struct StoredExecution {
    pub mode: ExecutionMode,
    pub argv: Vec<String>,
    pub working_directory: String,
    pub environment: Vec<(String, String)>,
    pub stdin: StdinPolicy,
    pub stdout: OutputPolicy,
    pub stderr: OutputPolicy,
    pub shell_path: Option<String>,
    pub notify_tty: Option<String>,
}

/// Why a stored execution specification was refused.
#[derive(Debug, PartialEq, Eq)]
pub enum ExecutionStorageError {
    /// The stored text is malformed.
    Json(String),
    /// A field is not valid.
    Invalid(ExecutionError),
    /// An input or output policy is not supported.
    InvalidPolicy,
    /// The shell path does not match the mode.
    InvalidShell,
    /// The terminal device path is not valid.
    InvalidNotifyTty,
}

/// The message of a storage error.
pub open spec fn execution_storage_message(error: ExecutionStorageError) -> Seq<char> {
    match error {
        ExecutionStorageError::Json(detail) => "stored execution JSON is invalid: "@ + detail@,
        ExecutionStorageError::Invalid(inner) => "stored execution is invalid: "@
            + execution_error_message(inner),
        ExecutionStorageError::InvalidPolicy => "stored execution policies are unsupported"@,
        ExecutionStorageError::InvalidShell => "stored shell path does not match execution mode"@,
        ExecutionStorageError::InvalidNotifyTty => "stored terminal device path is invalid"@,
    }
}

impl ExecutionStorageError {
    /// The error as a message.
    pub fn to_string(&self) -> (text: String)
        ensures
            text@ == execution_storage_message(*self),
    {
        match self {
            ExecutionStorageError::Json(detail) => {
                let mut out: String = "stored execution JSON is invalid: ".to_owned();
                push_text(&mut out, detail.as_str());
                out
            },
            ExecutionStorageError::Invalid(inner) => {
                let mut out: String = "stored execution is invalid: ".to_owned();
                push_text(&mut out, inner.to_string().as_str());
                out
            },
            ExecutionStorageError::InvalidPolicy => {
                "stored execution policies are unsupported".to_owned()
            },
            ExecutionStorageError::InvalidShell => {
                "stored shell path does not match execution mode".to_owned()
            },
            ExecutionStorageError::InvalidNotifyTty => {
                "stored terminal device path is invalid".to_owned()
            },
        }
    }
}

/// The stored fields are those of the specification.
pub open spec fn stored_matches(stored: StoredExecution, spec: ExecutionModel) -> bool {
    &&& stored.mode == spec.mode
    &&& texts(stored.argv@) == spec.argv
    &&& stored.working_directory@ == spec.working_directory
    &&& pairs_of(stored.environment@) == spec.environment
    &&& stored.stdin == StdinPolicy::Null
    &&& stored.stdout == OutputPolicy::BoundedFile
    &&& stored.stderr == OutputPolicy::BoundedFile
    &&& optional_text(stored.shell_path) == spec.shell_path
    &&& optional_text(stored.notify_tty) == spec.notify_tty
}

/// The entries are those that the stored assignments give.
pub open spec fn loaded_entries(stored: StoredExecution, entries: Entries) -> bool {
    &&& valid_entries(entries)
    &&& assigned(pairs_of(stored.environment@)) == Ok::<Map<Seq<char>, Seq<char>>, ExecutionError>(
        entries_map(entries),
    )
}

/// The result is what loading the stored fields gives: each field must be valid as if it were
/// submitted, and a shell path must be there exactly in shell mode.
pub open spec fn loaded_matches(
    stored: StoredExecution,
    r: Result<ExecutionSpec, ExecutionStorageError>,
) -> bool {
    match assigned(pairs_of(stored.environment@)) {
        Err(error) => r == Err::<ExecutionSpec, ExecutionStorageError>(
            ExecutionStorageError::Invalid(error),
        ),
        Ok(_) => exists|entries: Entries|
            {
                &&& #[trigger] loaded_entries(stored, entries)
                &&& loaded_with(stored, entries, r)
            },
    }
}

/// The result is what loading the stored fields gives with the given environment.
pub open spec fn loaded_with(
    stored: StoredExecution,
    entries: Entries,
    r: Result<ExecutionSpec, ExecutionStorageError>,
) -> bool {
    let argv = texts(stored.argv@);
    let spec = ExecutionModel {
        mode: stored.mode,
        argv,
        working_directory: stored.working_directory@,
        environment: entries,
        shell_path: optional_text(stored.shell_path),
        notify_tty: None,
    };
    let shell_ok = match stored.shell_path {
        Some(path) => stored.mode == ExecutionMode::Shell && is_absolute(path@),
        None => stored.mode == ExecutionMode::Direct,
    };
    match execution_fault(stored.mode, argv, stored.working_directory@, entries) {
        Some(error) => r == Err::<ExecutionSpec, ExecutionStorageError>(
            ExecutionStorageError::Invalid(error),
        ),
        None => if !shell_ok {
            r == Err::<ExecutionSpec, ExecutionStorageError>(ExecutionStorageError::InvalidShell)
        } else {
            match stored.notify_tty {
                Some(tty) => if tty_fault(spec, tty@) is Some {
                    r == Err::<ExecutionSpec, ExecutionStorageError>(
                        ExecutionStorageError::InvalidNotifyTty,
                    )
                } else {
                    r matches Ok(execution) && execution@ == (ExecutionModel {
                        notify_tty: Some(tty@),
                        ..spec
                    })
                },
                None => r matches Ok(execution) && execution@ == spec,
            }
        },
    }
}

/// A stored specification loads as what was stored.
pub proof fn lemma_stored_round_trip(
    spec: ExecutionModel,
    stored: StoredExecution,
    r: Result<ExecutionSpec, ExecutionStorageError>,
)
    requires
        valid_execution(spec),
        stored_matches(stored, spec),
        loaded_matches(stored, r),
    ensures
        r matches Ok(execution) && execution@ == spec,
{
    lemma_assigned_entries(spec.environment);
    let entries = choose|entries: Entries|
        {
            &&& #[trigger] loaded_entries(stored, entries)
            &&& loaded_with(stored, entries, r)
        };
    lemma_sorted_entries_unique(entries, spec.environment);
}

proof fn lemma_sizes_nonnegative(argv: Seq<Seq<char>>, environment: Entries)
    ensures
        argv_size(argv) >= 0,
        entries_size(environment) >= 0,
    decreases argv.len() + environment.len(),
{
    if argv.len() > 0 {
        lemma_sizes_nonnegative(argv.drop_last(), environment);
    } else if environment.len() > 0 {
        lemma_sizes_nonnegative(argv, environment.drop_last());
    }
}

} // verus!
