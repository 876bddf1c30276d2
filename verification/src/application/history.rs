//! Run-history application service.
use vstd::prelude::*;

use crate::domain::id::{JobId, RunId};
use crate::domain::job::Job;
use crate::domain::run::{outcome_model, Run, RunModel, RunOutcome, RunSnapshot};
use crate::domain::state::RunState;
use crate::path_text::{join_path, path_is_within, path_join, path_within};
use crate::text::{chars_of, is_ascii_alnum, push_text};

verus! {

broadcast use vstd::seq::group_seq_axioms;

/// One captured output stream plus its truncation flag.
#[derive(Debug, PartialEq, Eq)]
pub struct RunStream {
    pub content: Vec<u8>,
    pub truncated: bool,
}

impl RunStream {
    /// A stream on which nothing was captured.
    pub fn empty() -> (r: RunStream)
        ensures
            r.content@ == Seq::<u8>::empty(),
            !r.truncated,
    {
        RunStream { content: Vec::new(), truncated: false }
    }
}

/// Captured stdout and stderr of one run.
#[derive(Debug, PartialEq, Eq)]
pub struct RunOutput {
    pub run_id: RunId,
    pub job_id: JobId,
    pub state: RunState,
    pub outcome: Option<RunOutcome>,
    pub stdout: RunStream,
    pub stderr: RunStream,
}

/// Why stored runs could not be read.
#[derive(Debug, PartialEq, Eq)]
pub struct RunOutputStoreError(pub String);

/// Why there is no output to show.
#[derive(Debug, PartialEq, Eq)]
pub enum RunOutputError {
    NotFound,
    Ambiguous,
    InvalidPrefix,
    NoRuns,
    NotCaptured,
    MissingLogs,
    Read(String),
    Store(RunOutputStoreError),
}

/// The message of an output error.
pub open spec fn run_output_message(error: RunOutputError) -> Seq<char> {
    match error {
        RunOutputError::NotFound => "run or job was not found"@,
        RunOutputError::Ambiguous => "run or job prefix is ambiguous"@,
        RunOutputError::InvalidPrefix => "prefix is not valid"@,
        RunOutputError::NoRuns => "job has no recorded runs"@,
        RunOutputError::NotCaptured => "output has not been captured yet"@,
        RunOutputError::MissingLogs => "captured logs are missing from disk"@,
        RunOutputError::Read(detail) => "reading captured logs failed: "@ + detail@,
        RunOutputError::Store(inner) => "run output storage failed: "@ + inner.0@,
    }
}

impl RunOutputError {
    /// The error as a message.
    pub fn to_string(&self) -> (text: String)
        ensures
            text@ == run_output_message(*self),
    {
        match self {
            RunOutputError::NotFound => "run or job was not found".to_owned(),
            RunOutputError::Ambiguous => "run or job prefix is ambiguous".to_owned(),
            RunOutputError::InvalidPrefix => "prefix is not valid".to_owned(),
            RunOutputError::NoRuns => "job has no recorded runs".to_owned(),
            RunOutputError::NotCaptured => "output has not been captured yet".to_owned(),
            RunOutputError::MissingLogs => "captured logs are missing from disk".to_owned(),
            RunOutputError::Read(detail) => {
                let mut out: String = "reading captured logs failed: ".to_owned();
                push_text(&mut out, detail.as_str());
                out
            },
            RunOutputError::Store(inner) => {
                let mut out: String = "run output storage failed: ".to_owned();
                push_text(&mut out, inner.0.as_str());
                out
            },
        }
    }
}

/// `prefix` may start the identifier of a run or job, as far as its shape goes.
pub open spec fn valid_output_prefix(prefix: Seq<char>) -> bool {
    &&& 1 <= prefix.len() <= 26
    &&& forall|i: int| 0 <= i < prefix.len() ==> is_ascii_alnum(#[trigger] prefix[i])
}

/// Where runs are kept.
pub trait RunOutputStore {
    /// Runs, ended or not, whose identifier starts with `prefix`, at most `limit` of them.
    fn find_runs_by_prefix(&self, prefix: &str, limit: usize) -> Result<
        Vec<Run>,
        RunOutputStoreError,
    >
        requires
            valid_output_prefix(prefix@),
    ;

    /// The latest run of a job.
    fn latest_run(&self, job_id: JobId) -> Result<Option<Run>, RunOutputStoreError>;

    /// Jobs whose identifier starts with `prefix`, at most `limit` of them.
    fn find_jobs_by_prefix(&self, prefix: &str, limit: usize) -> Result<
        Vec<Job>,
        RunOutputStoreError,
    >
        requires
            valid_output_prefix(prefix@),
    ;

    fn stdout_truncated(&self, run_id: RunId) -> Result<bool, RunOutputStoreError>;

    fn stderr_truncated(&self, run_id: RunId) -> Result<bool, RunOutputStoreError>;
}

/// Captured logs on disk.
pub trait LogFiles {
    /// The path with every link followed, if it exists.
    fn resolve(&self, path: &str) -> Option<String>;

    /// Whether the path is a regular file.
    fn is_file(&self, path: &str) -> bool;

    /// The contents of a file in a directory; nothing outside it may be read.
    fn read(&self, path: &str, directory: &str) -> Result<Vec<u8>, String>
        requires
            path_within(path@, directory@),
    ;
}

// ---------------------------------------------------------------------------------------------
// Decisions
// ---------------------------------------------------------------------------------------------
/// Whether a byte is an ASCII letter or digit.
pub fn is_identifier_byte(byte: u8) -> (r: bool)
    ensures
        r == is_ascii_alnum(byte as char),
{
    (48 <= byte && byte <= 57) || (97 <= byte && byte <= 122) || (65 <= byte && byte <= 90)
}

/// Whether a text has the shape of a prefix.
pub fn is_valid_output_prefix(prefix: &str) -> (r: bool)
    ensures
        r == valid_output_prefix(prefix@),
{
    let chars: Vec<char> = chars_of(prefix);
    if chars.len() == 0 || chars.len() > 26 {
        return false;
    }
    let mut index: usize = 0;
    while index < chars.len()
        invariant
            index <= chars.len(),
            chars@ == prefix@,
            forall|i: int| 0 <= i < index ==> is_ascii_alnum(#[trigger] prefix@[i]),
        decreases chars.len() - index,
    {
        let c: char = chars[index];
        let code: u32 = c as u32;
        if code >= 128 || !is_identifier_byte(code as u8) {
            assert(prefix@[index as int] == c);
            return false;
        }
        index += 1;
    }
    true
}

/// What a run offers to read.
pub enum CapturePlan {
    /// The run ended without a capture.
    Nothing,
    /// The run has no complete capture yet.
    NotCaptured,
    /// The two logs, seen from the state directory.
    Read { stdout_path: String, stderr_path: String },
}

/// Decides what to read of a run.
pub fn capture_plan(run: &Run) -> (r: CapturePlan)
    ensures
        if run@.state.terminal() && run@.stdout_path is None {
            r is Nothing
        } else {
            match (run@.stdout_path, run@.stderr_path) {
                (Some(out), Some(err)) => r matches CapturePlan::Read { stdout_path, stderr_path }
                    && stdout_path@ == out && stderr_path@ == err,
                _ => r is NotCaptured,
            }
        },
{
    let snapshot: RunSnapshot = run.snapshot();
    if snapshot.state.is_terminal() && snapshot.stdout_path.is_none() {
        return CapturePlan::Nothing;
    }
    match (snapshot.stdout_path, snapshot.stderr_path) {
        (Some(stdout_path), Some(stderr_path)) => CapturePlan::Read { stdout_path, stderr_path },
        _ => CapturePlan::NotCaptured,
    }
}

/// The output of a run with the given streams.
pub fn assemble_output(run: &Run, stdout: RunStream, stderr: RunStream) -> (r: RunOutput)
    ensures
        output_of(r, run@),
        r.stdout == stdout,
        r.stderr == stderr,
{
    let snapshot: RunSnapshot = run.snapshot();
    RunOutput {
        run_id: snapshot.id,
        job_id: snapshot.job_id,
        state: snapshot.state,
        outcome: snapshot.outcome,
        stdout,
        stderr,
    }
}

/// The output names the run, its job, its state and its outcome.
pub open spec fn output_of(output: RunOutput, run: RunModel) -> bool {
    &&& output.run_id == run.id
    &&& output.job_id == run.job_id
    &&& output.state == run.state
    &&& outcome_model(output.outcome) == run.outcome
}

/// The only job of a list.
pub fn only_job_for_output(found: Vec<Job>) -> (r: Result<Job, RunOutputError>)
    ensures
        r == if found@.len() == 0 {
            Err::<Job, RunOutputError>(RunOutputError::NotFound)
        } else if found@.len() == 1 {
            Ok(found@[0])
        } else {
            Err(RunOutputError::Ambiguous)
        },
{
    let mut found: Vec<Job> = found;
    if found.len() > 1 {
        return Err(RunOutputError::Ambiguous);
    }
    match found.pop() {
        Some(job) => Ok(job),
        None => Err(RunOutputError::NotFound),
    }
}

/// What a list of runs says of a prefix.
pub enum RunChoice {
    /// No run has it.
    NoRun,
    /// One run has it.
    One(Run),
    /// Several runs have it.
    Several,
}

/// The only run of a list.
pub fn choose_run(found: Vec<Run>) -> (r: RunChoice)
    ensures
        r == if found@.len() == 0 {
            RunChoice::NoRun
        } else if found@.len() == 1 {
            RunChoice::One(found@[0])
        } else {
            RunChoice::Several
        },
{
    let mut found: Vec<Run> = found;
    if found.len() > 1 {
        return RunChoice::Several;
    }
    match found.pop() {
        Some(run) => RunChoice::One(run),
        None => RunChoice::NoRun,
    }
}

// ---------------------------------------------------------------------------------------------
// Services
// ---------------------------------------------------------------------------------------------
/// The result is what looking a prefix up among the jobs gives.
pub open spec fn job_for_output<Store: RunOutputStore>(
    store: Store,
    prefix: Seq<char>,
    r: Result<Job, RunOutputError>,
) -> bool {
    exists|text: &str, found: Result<Vec<Job>, RunOutputStoreError>|
        {
            &&& #[trigger] call_ensures(Store::find_jobs_by_prefix, (&store, text, 2usize), found)
            &&& text@ == prefix
            &&& r == match found {
                Err(error) => Err::<Job, RunOutputError>(RunOutputError::Store(error)),
                Ok(jobs) => if jobs@.len() == 0 {
                    Err::<Job, RunOutputError>(RunOutputError::NotFound)
                } else if jobs@.len() == 1 {
                    Ok::<Job, RunOutputError>(jobs@[0])
                } else {
                    Err::<Job, RunOutputError>(RunOutputError::Ambiguous)
                },
            }
        }
}

/// The result is what looking a prefix up gives: the only run that it names, or the latest run of
/// the job that it names where it names no run.
pub open spec fn run_for_output<Store: RunOutputStore>(
    store: Store,
    prefix: Seq<char>,
    r: Result<Run, RunOutputError>,
) -> bool {
    exists|text: &str, found: Result<Vec<Run>, RunOutputStoreError>|
        {
            &&& #[trigger] call_ensures(Store::find_runs_by_prefix, (&store, text, 2usize), found)
            &&& text@ == prefix
            &&& match found {
                Err(error) => r == Err::<Run, RunOutputError>(RunOutputError::Store(error)),
                Ok(runs) => if runs@.len() == 1 {
                    r == Ok::<Run, RunOutputError>(runs@[0])
                } else if runs@.len() > 1 {
                    r == Err::<Run, RunOutputError>(RunOutputError::Ambiguous)
                } else {
                    latest_for_output(store, prefix, r)
                },
            }
        }
}

/// The result is the latest run of the job that a prefix names.
pub open spec fn latest_for_output<Store: RunOutputStore>(
    store: Store,
    prefix: Seq<char>,
    r: Result<Run, RunOutputError>,
) -> bool {
    exists|named: Result<Job, RunOutputError>|
        {
            &&& #[trigger] job_for_output(store, prefix, named)
            &&& match named {
                Err(error) => r == Err::<Run, RunOutputError>(error),
                Ok(job) => exists|latest: Result<Option<Run>, RunOutputStoreError>|
                    {
                        &&& #[trigger] call_ensures(Store::latest_run, (&store, job@.id), latest)
                        &&& r == match latest {
                            Ok(Some(run)) => Ok::<Run, RunOutputError>(run),
                            Ok(None) => Err::<Run, RunOutputError>(RunOutputError::NoRuns),
                            Err(error) => Err::<Run, RunOutputError>(RunOutputError::Store(error)),
                        }
                    },
            }
        }
}

/// The path was followed, with this answer.
pub open spec fn path_resolved<Logs: LogFiles>(
    logs: Logs,
    path: Seq<char>,
    found: Option<String>,
) -> bool {
    exists|text: &str| #[trigger]
        call_ensures(Logs::resolve, (&logs, text), found) && text@ == path
}

/// The contents of the file in the directory were asked for, with this answer.
pub open spec fn file_read<Logs: LogFiles>(
    logs: Logs,
    path: Seq<char>,
    directory: Seq<char>,
    content: Result<Vec<u8>, String>,
) -> bool {
    exists|path_text: &str, directory_text: &str|
        {
            &&& #[trigger] call_ensures(Logs::read, (&logs, path_text, directory_text), content)
            &&& path_text@ == path
            &&& directory_text@ == directory
        }
}

/// The result is what reading one captured stream gives: nothing outside the directory is read.
pub open spec fn stream_read<Logs: LogFiles>(
    logs: Logs,
    path: Seq<char>,
    runs_directory: Seq<char>,
    truncated: bool,
    r: Result<RunStream, RunOutputError>,
) -> bool {
    if !path_within(path, runs_directory) {
        r == Err::<RunStream, RunOutputError>(RunOutputError::MissingLogs)
    } else {
        exists|text: &str, present: bool|
            {
                &&& #[trigger] call_ensures(Logs::is_file, (&logs, text), present)
                &&& text@ == path
                &&& if !present {
                    r == Err::<RunStream, RunOutputError>(RunOutputError::MissingLogs)
                } else {
                    exists|content: Result<Vec<u8>, String>|
                        {
                            &&& #[trigger] file_read(logs, path, runs_directory, content)
                            &&& r == match content {
                                Ok(content) => Ok::<RunStream, RunOutputError>(
                                    RunStream { content, truncated },
                                ),
                                Err(detail) => Err::<RunStream, RunOutputError>(
                                    RunOutputError::Read(detail),
                                ),
                            }
                        }
                }
            }
    }
}

/// One of the two streams of a run.
#[derive(Clone, Copy, Debug, PartialEq, Eq, Structural)]
pub enum Stream {
    Stdout,
    Stderr,
}

/// The store was asked whether the stream of the run was truncated, with this answer.
pub open spec fn truncation_asked<Store: RunOutputStore>(
    store: Store,
    run_id: RunId,
    stream: Stream,
    flag: Result<bool, RunOutputStoreError>,
) -> bool {
    match stream {
        Stream::Stdout => call_ensures(Store::stdout_truncated, (&store, run_id), flag),
        Stream::Stderr => call_ensures(Store::stderr_truncated, (&store, run_id), flag),
    }
}

/// The result is what reading a stream that was captured at a path below the state directory gives.
pub open spec fn capture_read<Store: RunOutputStore, Logs: LogFiles>(
    store: Store,
    logs: Logs,
    run_id: RunId,
    stream: Stream,
    path: Seq<char>,
    runs_directory: Seq<char>,
    r: Result<RunStream, RunOutputError>,
) -> bool {
    exists|file: Option<String>|
        {
            &&& #[trigger] path_resolved(logs, path, file)
            &&& match file {
                None => r == Err::<RunStream, RunOutputError>(RunOutputError::MissingLogs),
                Some(file) => exists|flag: Result<bool, RunOutputStoreError>|
                    {
                        &&& #[trigger] truncation_asked(store, run_id, stream, flag)
                        &&& match flag {
                            Err(error) => r == Err::<RunStream, RunOutputError>(
                                RunOutputError::Store(error),
                            ),
                            Ok(truncated) => stream_read(
                                logs,
                                file@,
                                runs_directory,
                                truncated,
                                r,
                            ),
                        }
                    },
            }
        }
}

/// The result is what reading both streams of a run gives, standard output first.
pub open spec fn captures_read<Store: RunOutputStore, Logs: LogFiles>(
    store: Store,
    logs: Logs,
    run: Run,
    state_directory: Seq<char>,
    runs_directory: Seq<char>,
    r: Result<RunOutput, RunOutputError>,
) -> bool {
    exists|stdout: Result<RunStream, RunOutputError>|
        {
            &&& #[trigger] capture_read(
                store,
                logs,
                run@.id,
                Stream::Stdout,
                path_join(state_directory, run@.stdout_path->0),
                runs_directory,
                stdout,
            )
            &&& match stdout {
                Err(error) => r == Err::<RunOutput, RunOutputError>(error),
                Ok(out) => exists|stderr: Result<RunStream, RunOutputError>|
                    {
                        &&& #[trigger] capture_read(
                            store,
                            logs,
                            run@.id,
                            Stream::Stderr,
                            path_join(state_directory, run@.stderr_path->0),
                            runs_directory,
                            stderr,
                        )
                        &&& match stderr {
                            Err(error) => r == Err::<RunOutput, RunOutputError>(error),
                            Ok(err) => r matches Ok(output) && output_of(output, run@)
                                && output.stdout == out && output.stderr == err,
                        }
                    },
            }
        }
}

/// The result is what the capture of a run gives: a run that ended without one has empty streams.
pub open spec fn run_output_read<Store: RunOutputStore, Logs: LogFiles>(
    store: Store,
    logs: Logs,
    run: Run,
    state_directory: Seq<char>,
    r: Result<RunOutput, RunOutputError>,
) -> bool {
    if run@.state.terminal() && run@.stdout_path is None {
        r matches Ok(output) && output_of(output, run@) && output.stdout.content@.len() == 0
            && !output.stdout.truncated && output.stderr.content@.len() == 0
            && !output.stderr.truncated
    } else if run@.stdout_path is None || run@.stderr_path is None {
        r == Err::<RunOutput, RunOutputError>(RunOutputError::NotCaptured)
    } else {
        exists|directory: Option<String>|
            {
                &&& #[trigger] path_resolved(logs, path_join(state_directory, "runs"@), directory)
                &&& match directory {
                    None => r == Err::<RunOutput, RunOutputError>(RunOutputError::MissingLogs),
                    Some(directory) => captures_read(
                        store,
                        logs,
                        run,
                        state_directory,
                        directory@,
                        r,
                    ),
                }
            }
    }
}

/// The result is what reading the output that a prefix names gives.
pub open spec fn output_read<Store: RunOutputStore, Logs: LogFiles>(
    store: Store,
    logs: Logs,
    state_directory: Seq<char>,
    prefix: Seq<char>,
    r: Result<RunOutput, RunOutputError>,
) -> bool {
    if !valid_output_prefix(prefix) {
        r == Err::<RunOutput, RunOutputError>(RunOutputError::InvalidPrefix)
    } else {
        exists|named: Result<Run, RunOutputError>|
            {
                &&& #[trigger] run_for_output(store, prefix, named)
                &&& match named {
                    Err(error) => r == Err::<RunOutput, RunOutputError>(error),
                    Ok(run) => run_output_read(store, logs, run, state_directory, r),
                }
            }
    }
}

/// The only job whose identifier starts with a prefix.
pub fn resolve_job_for_output<Store: RunOutputStore>(store: &Store, prefix: &str) -> (r: Result<
    Job,
    RunOutputError,
>)
    requires
        valid_output_prefix(prefix@),
    ensures
        job_for_output(*store, prefix@, r),
{
    match store.find_jobs_by_prefix(prefix, 2) {
        Ok(jobs) => only_job_for_output(jobs),
        Err(error) => Err(RunOutputError::Store(error)),
    }
}

/// The only run whose identifier starts with a prefix, or the latest run of the job whose
/// identifier does.
pub fn resolve_run_for_output<Store: RunOutputStore>(store: &Store, prefix: &str) -> (r: Result<
    Run,
    RunOutputError,
>)
    requires
        valid_output_prefix(prefix@),
    ensures
        run_for_output(*store, prefix@, r),
{
    let found: Vec<Run> = match store.find_runs_by_prefix(prefix, 2) {
        Ok(found) => found,
        Err(error) => {
            return Err(RunOutputError::Store(error));
        },
    };
    match choose_run(found) {
        RunChoice::One(run) => Ok(run),
        RunChoice::Several => Err(RunOutputError::Ambiguous),
        RunChoice::NoRun => {
            let named: Result<Job, RunOutputError> = resolve_job_for_output(store, prefix);
            assert(job_for_output(*store, prefix@, named));
            let job: Job = match named {
                Ok(job) => job,
                Err(error) => {
                    let r: Result<Run, RunOutputError> = Err(error);
                    assert(latest_for_output(*store, prefix@, r));
                    return r;
                },
            };
            let r: Result<Run, RunOutputError> = match store.latest_run(job.id()) {
                Ok(Some(run)) => Ok(run),
                Ok(None) => Err(RunOutputError::NoRuns),
                Err(error) => Err(RunOutputError::Store(error)),
            };
            assert(latest_for_output(*store, prefix@, r));
            r
        },
    }
}

/// Reads one captured stream; nothing outside the runs directory is read.
pub fn read_stream<Logs: LogFiles>(
    logs: &Logs,
    path: &str,
    runs_directory: &str,
    truncated: bool,
) -> (r: Result<RunStream, RunOutputError>)
    ensures
        stream_read(*logs, path@, runs_directory@, truncated, r),
{
    if !path_is_within(path, runs_directory) {
        return Err(RunOutputError::MissingLogs);
    }
    if !logs.is_file(path) {
        return Err(RunOutputError::MissingLogs);
    }
    let content: Result<Vec<u8>, String> = logs.read(path, runs_directory);
    assert(file_read(*logs, path@, runs_directory@, content));
    match content {
        Ok(content) => Ok(RunStream { content, truncated }),
        Err(detail) => Err(RunOutputError::Read(detail)),
    }
}

/// Reads a stream that was captured at a path below the state directory.
pub fn read_capture<Store: RunOutputStore, Logs: LogFiles>(
    store: &Store,
    logs: &Logs,
    run_id: RunId,
    stream: Stream,
    path: &str,
    runs_directory: &str,
) -> (r: Result<RunStream, RunOutputError>)
    ensures
        capture_read(*store, *logs, run_id, stream, path@, runs_directory@, r),
{
    let file: Option<String> = logs.resolve(path);
    assert(path_resolved(*logs, path@, file));
    let file: String = match file {
        Some(file) => file,
        None => {
            return Err(RunOutputError::MissingLogs);
        },
    };
    let flag: Result<bool, RunOutputStoreError> = match stream {
        Stream::Stdout => store.stdout_truncated(run_id),
        Stream::Stderr => store.stderr_truncated(run_id),
    };
    assert(truncation_asked(*store, run_id, stream, flag));
    match flag {
        Ok(truncated) => read_stream(logs, file.as_str(), runs_directory, truncated),
        Err(error) => Err(RunOutputError::Store(error)),
    }
}

/// The captured output of the run that a prefix names, or of the latest run of the job it names.
pub fn read_run_output<Store: RunOutputStore, Logs: LogFiles>(
    store: &Store,
    logs: &Logs,
    state_directory: &str,
    prefix: &str,
) -> (r: Result<RunOutput, RunOutputError>)
    ensures
        output_read(*store, *logs, state_directory@, prefix@, r),
{
    if !is_valid_output_prefix(prefix) {
        return Err(RunOutputError::InvalidPrefix);
    }
    let named: Result<Run, RunOutputError> = resolve_run_for_output(store, prefix);
    assert(run_for_output(*store, prefix@, named));
    let run: Run = match named {
        Ok(run) => run,
        Err(error) => {
            return Err(error);
        },
    };
    let (stdout_path, stderr_path) = match capture_plan(&run) {
        CapturePlan::Nothing => {
            return Ok(assemble_output(&run, RunStream::empty(), RunStream::empty()));
        },
        CapturePlan::NotCaptured => {
            return Err(RunOutputError::NotCaptured);
        },
        CapturePlan::Read { stdout_path, stderr_path } => (stdout_path, stderr_path),
    };
    let directory: Option<String> = logs.resolve(join_path(state_directory, "runs").as_str());
    assert(path_resolved(*logs, path_join(state_directory@, "runs"@), directory));
    let runs_directory: String = match directory {
        Some(path) => path,
        None => {
            return Err(RunOutputError::MissingLogs);
        },
    };
    let stdout: Result<RunStream, RunOutputError> = read_capture(
        store,
        logs,
        run.id(),
        Stream::Stdout,
        join_path(state_directory, stdout_path.as_str()).as_str(),
        runs_directory.as_str(),
    );
    let ghost first = stdout;
    assert(capture_read(
        *store,
        *logs,
        run@.id,
        Stream::Stdout,
        path_join(state_directory@, run@.stdout_path->0),
        runs_directory@,
        first,
    ));
    let stdout: RunStream = match stdout {
        Ok(stream) => stream,
        Err(error) => {
            let r: Result<RunOutput, RunOutputError> = Err(error);
            assert(captures_read(*store, *logs, run, state_directory@, runs_directory@, r));
            return r;
        },
    };
    let stderr: Result<RunStream, RunOutputError> = read_capture(
        store,
        logs,
        run.id(),
        Stream::Stderr,
        join_path(state_directory, stderr_path.as_str()).as_str(),
        runs_directory.as_str(),
    );
    let ghost second = stderr;
    assert(capture_read(
        *store,
        *logs,
        run@.id,
        Stream::Stderr,
        path_join(state_directory@, run@.stderr_path->0),
        runs_directory@,
        second,
    ));
    let r: Result<RunOutput, RunOutputError> = match stderr {
        Ok(stderr) => Ok(assemble_output(&run, stdout, stderr)),
        Err(error) => Err(error),
    };
    assert(captures_read(*store, *logs, run, state_directory@, runs_directory@, r));
    r
}

} // verus!
