//! Which output is shown for a run.
use crate::application::history::{
    capture_plan, capture_read, captures_read, choose_run, file_read, is_valid_output_prefix,
    job_for_output, latest_for_output, only_job_for_output, output_of, path_resolved,
    read_run_output, read_stream, resolve_run_for_output, run_for_output, run_output_read,
    stream_read, truncation_asked, CapturePlan, LogFiles, RunChoice, RunOutput, RunOutputError,
    RunOutputStore, RunOutputStoreError, RunStream, Stream,
};
use crate::domain::id::{id_text, lemma_id_round_trip, symbol_digit, RunId};
use crate::domain::job::Job;
use crate::domain::run::Run;
use crate::path_text::{path_join, path_within};
use crate::text::is_ascii_alnum;
use super::lifecycle::ended;
use vstd::prelude::*;

verus! {

/// A prefix names the only run with it; several are too many.
pub proof fn lemma_only_run_is_chosen(found: Vec<Run>, r: RunChoice)
    requires
        call_ensures(choose_run, (found,), r),
    ensures
        match r {
            RunChoice::NoRun => found@.len() == 0,
            RunChoice::One(run) => found@.len() == 1 && found@[0] == run,
            RunChoice::Several => found@.len() > 1,
        },
{
}

/// A prefix names the only job with it; several are too many, and none is an error too.
pub proof fn lemma_only_job_is_chosen(found: Vec<Job>, r: Result<Job, RunOutputError>)
    requires
        call_ensures(only_job_for_output, (found,), r),
    ensures
        match r {
            Ok(job) => found@.len() == 1 && found@[0] == job,
            Err(RunOutputError::NotFound) => found@.len() == 0,
            Err(RunOutputError::Ambiguous) => found@.len() > 1,
            Err(_) => false,
        },
{
}

/// A run is read where it has both logs; one that ended without a log has nothing to show, and any other
/// is not captured yet.
pub proof fn lemma_captured_runs_are_read(run: &Run, r: CapturePlan)
    requires
        call_ensures(capture_plan, (run,), r),
    ensures
        match r {
            CapturePlan::Nothing => ended(run@.state) && run@.stdout_path is None,
            CapturePlan::NotCaptured => !(ended(run@.state) && run@.stdout_path is None) && (
            run@.stdout_path is None || run@.stderr_path is None),
            CapturePlan::Read { stdout_path, stderr_path } => run@.stdout_path == Some(stdout_path@)
                && run@.stderr_path == Some(stderr_path@),
        },
{
}

/// Nothing outside the directory of runs is ever read, and what is read is shown as it is.
pub proof fn lemma_logs_stay_in_their_directory<Logs: LogFiles>(
    logs: &Logs,
    path: &str,
    directory: &str,
    truncated: bool,
    r: Result<RunStream, RunOutputError>,
)
    requires
        call_ensures(read_stream::<Logs>, (logs, path, directory, truncated), r),
    ensures
        !path_within(path@, directory@) ==> r == Err::<RunStream, RunOutputError>(
            RunOutputError::MissingLogs,
        ),
        r matches Ok(stream) ==> {
            &&& path_within(path@, directory@)
            &&& stream.truncated == truncated
            &&& exists|from: &str, within: &str|
                {
                    &&& #[trigger] call_ensures(
                        Logs::read,
                        (logs, from, within),
                        Ok::<Vec<u8>, String>(stream.content),
                    )
                    &&& from@ == path@
                    &&& within@ == directory@
                }
        },
{
    if let Ok(stream) = r {
        let content = choose|content: Result<Vec<u8>, String>|
            {
                &&& #[trigger] file_read(
                    *logs,
                    path@,
                    directory@,
                    content,
                )
                &&& content matches Ok(bytes) && stream == (RunStream { content: bytes, truncated })
            };
        assert(content == Ok::<Vec<u8>, String>(stream.content));
    }
}

/// What is shown belongs to the run that the prefix names: its identifier, its job, its state and how it
/// ended. A run that ended without a log is shown with nothing on either stream.
pub proof fn lemma_shown_output_is_of_the_named_run<Store: RunOutputStore, Logs: LogFiles>(
    store: &Store,
    logs: &Logs,
    state_directory: &str,
    prefix: &str,
    output: RunOutput,
)
    requires
        call_ensures(
            read_run_output::<Store, Logs>,
            (store, logs, state_directory, prefix),
            Ok::<RunOutput, RunOutputError>(output),
        ),
    ensures
        exists|run: Run|
            {
                &&& #[trigger] run_for_output(*store, prefix@, Ok::<Run, RunOutputError>(run))
                &&& output.run_id == run@.id
                &&& output.job_id == run@.job_id
                &&& output.state == run@.state
                &&& output.outcome is Some <==> run@.outcome is Some
                &&& output.outcome matches Some(outcome) ==> run@.outcome == Some(outcome@)
                &&& run@.stdout_path is None ==> {
                    &&& ended(run@.state)
                    &&& output.stdout.content@.len() == 0 && !output.stdout.truncated
                    &&& output.stderr.content@.len() == 0 && !output.stderr.truncated
                }
            },
{
    let named = choose|named: Result<Run, RunOutputError>|
        {
            &&& #[trigger] run_for_output(*store, prefix@, named)
            &&& named matches Ok(run) && run_output_read(
                *store,
                *logs,
                run,
                state_directory@,
                Ok::<RunOutput, RunOutputError>(output),
            )
        };
    let run = named->Ok_0;
    assert(named == Ok::<Run, RunOutputError>(run));
    assert(output_of(output, run@));
}

/// The run is the only one with the prefix; where no run has it, it is the latest run of the only job with
/// it. Two of each are enough to see that there are several.
pub proof fn lemma_runs_are_named_before_jobs<Store: RunOutputStore>(
    store: &Store,
    prefix: &str,
    run: Run,
)
    requires
        call_ensures(
            resolve_run_for_output::<Store>,
            (store, prefix),
            Ok::<Run, RunOutputError>(run),
        ),
    ensures
        exists|text: &str, found: Vec<Run>|
            {
                &&& #[trigger] call_ensures(
                    Store::find_runs_by_prefix,
                    (store, text, 2usize),
                    Ok::<Vec<Run>, RunOutputStoreError>(found),
                )
                &&& text@ == prefix@
                &&& found@.len() == 1 ==> found@[0] == run
                &&& found@.len() <= 1
                &&& found@.len() == 0 ==> exists|word: &str, jobs: Vec<Job>|
                    {
                        &&& #[trigger] call_ensures(
                            Store::find_jobs_by_prefix,
                            (store, word, 2usize),
                            Ok::<Vec<Job>, RunOutputStoreError>(jobs),
                        )
                        &&& word@ == prefix@
                        &&& jobs@.len() == 1
                        &&& call_ensures(
                            Store::latest_run,
                            (store, jobs@[0]@.id),
                            Ok::<Option<Run>, RunOutputStoreError>(Some(run)),
                        )
                    }
            },
{
    let r = Ok::<Run, RunOutputError>(run);
    let (text, found) = choose|text: &str, found: Result<Vec<Run>, RunOutputStoreError>|
        {
            &&& #[trigger] call_ensures(Store::find_runs_by_prefix, (store, text, 2usize), found)
            &&& text@ == prefix@
            &&& match found {
                Err(error) => r == Err::<Run, RunOutputError>(RunOutputError::Store(error)),
                Ok(runs) => if runs@.len() == 1 {
                    r == Ok::<Run, RunOutputError>(runs@[0])
                } else if runs@.len() > 1 {
                    r == Err::<Run, RunOutputError>(RunOutputError::Ambiguous)
                } else {
                    latest_for_output(*store, prefix@, r)
                },
            }
        };
    let runs = found->Ok_0;
    assert(found == Ok::<Vec<Run>, RunOutputStoreError>(runs));
    if runs@.len() == 0 {
        let named = choose|named: Result<Job, RunOutputError>|
            {
                &&& #[trigger] job_for_output(*store, prefix@, named)
                &&& named matches Ok(job) && exists|latest: Result<Option<Run>, RunOutputStoreError>|
                    {
                        &&& #[trigger] call_ensures(Store::latest_run, (store, job@.id), latest)
                        &&& latest == Ok::<Option<Run>, RunOutputStoreError>(Some(run))
                    }
            };
        let (word, listed) = choose|word: &str, listed: Result<Vec<Job>, RunOutputStoreError>|
            {
                &&& #[trigger] call_ensures(
                    Store::find_jobs_by_prefix,
                    (store, word, 2usize),
                    listed,
                )
                &&& word@ == prefix@
                &&& listed matches Ok(jobs) && jobs@.len() == 1 && named == Ok::<
                    Job,
                    RunOutputError,
                >(jobs@[0])
            };
        assert(listed == Ok::<Vec<Job>, RunOutputStoreError>(listed->Ok_0));
    }
}

/// Each stream is read from its own log below the state directory, with its own mark of being cut off.
pub proof fn lemma_streams_are_read_from_their_logs<Store: RunOutputStore, Logs: LogFiles>(
    store: Store,
    logs: Logs,
    run: Run,
    state_directory: Seq<char>,
    output: RunOutput,
)
    requires
        run_output_read(
            store,
            logs,
            run,
            state_directory,
            Ok::<RunOutput, RunOutputError>(output),
        ),
        run@.stdout_path is Some && run@.stderr_path is Some,
    ensures
        exists|directory: String, out: String, err: String|
            {
                &&& path_resolved(logs, path_join(state_directory, "runs"@), Some(directory))
                &&& path_resolved(
                    logs,
                    path_join(state_directory, run@.stdout_path->0),
                    Some(out),
                )
                &&& path_resolved(
                    logs,
                    path_join(state_directory, run@.stderr_path->0),
                    Some(err),
                )
                &&& #[trigger] file_read(
                    logs,
                    out@,
                    directory@,
                    Ok::<Vec<u8>, String>(output.stdout.content),
                )
                &&& #[trigger] file_read(
                    logs,
                    err@,
                    directory@,
                    Ok::<Vec<u8>, String>(output.stderr.content),
                )
            },
        call_ensures(
            Store::stdout_truncated,
            (&store, run@.id),
            Ok::<bool, RunOutputStoreError>(output.stdout.truncated),
        ),
        call_ensures(
            Store::stderr_truncated,
            (&store, run@.id),
            Ok::<bool, RunOutputStoreError>(output.stderr.truncated),
        ),
{
    let r = Ok::<RunOutput, RunOutputError>(output);
    let directory = choose|directory: Option<String>|
        {
            &&& #[trigger] path_resolved(logs, path_join(state_directory, "runs"@), directory)
            &&& directory matches Some(path) && captures_read(
                store,
                logs,
                run,
                state_directory,
                path@,
                r,
            )
        };
    let runs_directory = directory->0;
    let out_path = path_join(state_directory, run@.stdout_path->0);
    let err_path = path_join(state_directory, run@.stderr_path->0);
    let stdout = choose|stdout: Result<RunStream, RunOutputError>|
        {
            &&& #[trigger] capture_read(
                store,
                logs,
                run@.id,
                Stream::Stdout,
                out_path,
                runs_directory@,
                stdout,
            )
            &&& stdout == Ok::<RunStream, RunOutputError>(output.stdout)
            &&& exists|stderr: Result<RunStream, RunOutputError>|
                {
                    &&& #[trigger] capture_read(
                        store,
                        logs,
                        run@.id,
                        Stream::Stderr,
                        err_path,
                        runs_directory@,
                        stderr,
                    )
                    &&& stderr == Ok::<RunStream, RunOutputError>(output.stderr)
                }
        };
    let out = lemma_stream_is_read(
        store,
        logs,
        run@.id,
        Stream::Stdout,
        out_path,
        runs_directory@,
        output.stdout,
    );
    let err = lemma_stream_is_read(
        store,
        logs,
        run@.id,
        Stream::Stderr,
        err_path,
        runs_directory@,
        output.stderr,
    );
}

proof fn lemma_stream_is_read<Store: RunOutputStore, Logs: LogFiles>(
    store: Store,
    logs: Logs,
    run: RunId,
    which: Stream,
    path: Seq<char>,
    directory: Seq<char>,
    stream: RunStream,
) -> (file: String)
    requires
        capture_read(
            store,
            logs,
            run,
            which,
            path,
            directory,
            Ok::<RunStream, RunOutputError>(stream),
        ),
    ensures
        path_resolved(logs, path, Some(file)),
        file_read(logs, file@, directory, Ok::<Vec<u8>, String>(stream.content)),
        truncation_asked(
            store,
            run,
            which,
            Ok::<bool, RunOutputStoreError>(stream.truncated),
        ),
{
    let r = Ok::<RunStream, RunOutputError>(stream);
    let found = choose|found: Option<String>|
        {
            &&& #[trigger] path_resolved(logs, path, found)
            &&& found matches Some(file) && exists|flag: Result<bool, RunOutputStoreError>|
                {
                    &&& #[trigger] truncation_asked(store, run, which, flag)
                    &&& flag matches Ok(truncated) && stream_read(
                        logs,
                        file@,
                        directory,
                        truncated,
                        r,
                    )
                }
        };
    let file = found->0;
    let flag = choose|flag: Result<bool, RunOutputStoreError>|
        {
            &&& #[trigger] truncation_asked(store, run, which, flag)
            &&& flag matches Ok(truncated) && stream_read(logs, file@, directory, truncated, r)
        };
    let content = choose|content: Result<Vec<u8>, String>|
        {
            &&& #[trigger] file_read(logs, file@, directory, content)
            &&& content matches Ok(bytes) && stream == (RunStream {
                content: bytes,
                truncated: flag->Ok_0,
            })
        };
    assert(content == Ok::<Vec<u8>, String>(stream.content));
    assert(flag == Ok::<bool, RunOutputStoreError>(stream.truncated));
    file
}

/// A prefix is made of at most 26 letters and digits, and is not empty.
pub proof fn lemma_output_prefixes(prefix: &str, r: bool, id: u128, length: int)
    requires
        call_ensures(is_valid_output_prefix, (prefix,), r),
    ensures
        1 <= length <= 26 && prefix@ == id_text(id).take(length) ==> r,
        prefix@.len() == 0 || prefix@.len() > 26 ==> !r,
        prefix@.contains('-') || prefix@.contains('/') || prefix@.contains('%') ==> !r,
{
    lemma_id_round_trip(id);
    let text = id_text(id);
    if 1 <= length <= 26 && prefix@ == text.take(length) {
        assert forall|i: int| 0 <= i < prefix@.len() implies is_ascii_alnum(
            #[trigger] prefix@[i],
        ) by {
            assert(prefix@[i] == text[i]);
            assert(symbol_digit(text[i]) is Some);
            lemma_symbols_are_letters_and_digits(text[i]);
        }
    }
}

proof fn lemma_symbols_are_letters_and_digits(c: char)
    requires
        symbol_digit(c) is Some,
    ensures
        is_ascii_alnum(c),
{
}

} // verus!
