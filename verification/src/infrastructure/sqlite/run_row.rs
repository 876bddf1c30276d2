//! Runs as rows.
use vstd::prelude::*;

use super::database::StoreError;
use super::job_row::{
    corrupt, identifier_message, parse_timestamp, read_job_id, stores_time, timestamp_message,
    to_sql_u64,
};
use super::names::{
    encode_run_state, lemma_names_read_back, run_state_name, run_state_named,
};
use crate::domain::execution::optional_text;
use crate::domain::id::{id_of_text, id_text, lemma_id_views_injective, JobId, RunId};
use crate::domain::primitives::{
    lemma_counter_views_injective, lemma_timestamp_view_injective, primitive_message,
    PrimitiveError, Sequence, UtcTimestamp,
};
use crate::domain::run::{
    identity_model, outcome_model, run_error_message, snapshot_fault, ClaimToken, IdentityModel,
    OutcomeModel, ProcessIdentitySnapshot, Run, RunModel, RunOutcome, RunSnapshot,
};
use crate::domain::schedule::{MissedPolicy, RuntimeTier};
use crate::domain::state::{JobState, RunState};
use crate::outside::timestamp_of_text;
use crate::text::{copy_text, text_eq};

verus! {

broadcast use vstd::seq::group_seq_axioms;

/// A row of the table of runs. The identities and the outcome are stored as JSON text; a column
/// that cannot be read holds the reason.
pub struct RunRow {
    pub id: String,
    pub job_id: String,
    pub sequence: i64,
    pub scheduled_for_utc: String,
    pub created_at_utc: String,
    pub started_at_utc: Option<String>,
    pub finished_at_utc: Option<String>,
    pub state: String,
    pub claim_token: Vec<u8>,
    pub monitor_identity: Result<Option<ProcessIdentitySnapshot>, String>,
    pub command_identity: Result<Option<ProcessIdentitySnapshot>, String>,
    pub process_group_id: Option<i32>,
    pub exit_code: Option<i32>,
    pub terminating_signal: Option<i32>,
    pub failure: Option<String>,
    pub outcome: Result<Option<RunOutcome>, String>,
    pub stdout_path: Option<String>,
    pub stderr_path: Option<String>,
}

// ---------------------------------------------------------------------------------------------
// Columns
// ---------------------------------------------------------------------------------------------
fn read_run_id(value: &str) -> (r: Result<RunId, StoreError>)
    ensures
        match id_of_text(value@) {
            Some(number) => r matches Ok(id) && id@ == number,
            None => corrupt(r, identifier_message()),
        },
{
    match RunId::from_str(value) {
        Ok(id) => Ok(id),
        Err(error) => Err(StoreError::Corrupt(error.to_string())),
    }
}

fn read_sequence(value: i64) -> (r: Result<Sequence, StoreError>)
    ensures
        if value < 0 {
            corrupt(r, "negative sequence"@)
        } else if value == 0 {
            corrupt(r, primitive_message(PrimitiveError::Zero { field: "sequence" }))
        } else {
            r matches Ok(sequence) && sequence@ == value
        },
{
    if value < 0 {
        return Err(StoreError::Corrupt("negative sequence".to_owned()));
    }
    match Sequence::new(value as u64) {
        Ok(sequence) => Ok(sequence),
        Err(error) => Err(StoreError::Corrupt(error.to_string())),
    }
}

/// A column that may be empty cannot be read as a timestamp.
pub open spec fn bad_optional_time(value: Option<String>) -> bool {
    value matches Some(text) && timestamp_of_text(text@) is None
}

/// A column that may be empty holds the timestamp.
pub open spec fn is_optional_time(value: Option<String>, time: Option<UtcTimestamp>) -> bool {
    match value {
        Some(text) => time matches Some(timestamp) && timestamp_of_text(text@) == Some(timestamp@),
        None => time is None,
    }
}

/// The column as a timestamp, where it is not empty.
pub fn parse_optional_timestamp(value: &Option<String>) -> (r: Result<
    Option<UtcTimestamp>,
    StoreError,
>)
    ensures
        if bad_optional_time(*value) {
            corrupt(r, timestamp_message())
        } else {
            r matches Ok(time) && is_optional_time(*value, time)
        },
{
    match value {
        Some(text) => match parse_timestamp(text.as_str()) {
            Ok(timestamp) => Ok(Some(timestamp)),
            Err(error) => Err(error),
        },
        None => Ok(None),
    }
}

/// The run state with a stored name.
pub fn decode_run_state(value: &str) -> (r: Result<RunState, StoreError>)
    ensures
        match run_state_named(value@) {
            Some(state) => r == Ok::<RunState, StoreError>(state),
            None => corrupt(r, "unknown run state"@),
        },
{
    if text_eq(value, "starting") {
        Ok(RunState::Starting)
    } else if text_eq(value, "running") {
        Ok(RunState::Running)
    } else if text_eq(value, "cancel_requested") {
        Ok(RunState::CancelRequested)
    } else if text_eq(value, "succeeded") {
        Ok(RunState::Succeeded)
    } else if text_eq(value, "failed") {
        Ok(RunState::Failed)
    } else if text_eq(value, "cancelled") {
        Ok(RunState::Cancelled)
    } else if text_eq(value, "interrupted") {
        Ok(RunState::Interrupted)
    } else {
        Err(StoreError::Corrupt("unknown run state".to_owned()))
    }
}

fn read_token(bytes: &Vec<u8>) -> (r: Result<ClaimToken, StoreError>)
    ensures
        if bytes@.len() == 32 {
            r matches Ok(token) && token@ == bytes@
        } else {
            corrupt(r, "claim token is not 32 bytes"@)
        },
{
    if bytes.len() != 32 {
        return Err(StoreError::Corrupt("claim token is not 32 bytes".to_owned()));
    }
    let mut token: [u8; 32] = [0u8;32];
    let mut index: usize = 0;
    while index < 32
        invariant
            index <= 32,
            bytes@.len() == 32,
            token@.len() == 32,
            forall|i: int| 0 <= i < index ==> token@[i] == bytes@[i],
        decreases 32 - index,
    {
        token[index] = bytes[index];
        index += 1;
    }
    assert(token@ =~= bytes@);
    Ok(ClaimToken::from_bytes(token))
}

/// The process group of a process.
pub open spec fn group_of(identity: Option<ProcessIdentitySnapshot>) -> Option<i32> {
    match identity {
        Some(process) => Some(process.process_group_id),
        None => None,
    }
}

fn same_number(left: Option<i32>, right: Option<i32>) -> (r: bool)
    ensures
        r == (left == right),
{
    match (left, right) {
        (Some(a), Some(b)) => a == b,
        (None, None) => true,
        _ => false,
    }
}

/// The columns that repeat the outcome agree with it.
pub open spec fn outcome_columns_agree(
    outcome: Option<OutcomeModel>,
    exit_code: Option<i32>,
    signal: Option<i32>,
    failure: Option<Seq<char>>,
) -> bool {
    match outcome {
        None => exit_code is None && signal is None && failure is None,
        Some(OutcomeModel::Exit(code)) => exit_code == Some(code) && signal is None && failure
            is None,
        Some(OutcomeModel::Signal(number)) => signal == Some(number) && exit_code is None && failure
            is None,
        Some(OutcomeModel::Failure(text)) => failure == Some(text) && exit_code is None && signal
            is None,
        Some(OutcomeModel::Interrupted(text)) => failure == Some(text) && exit_code is None
            && signal is None,
        Some(OutcomeModel::Cancelled(text)) => failure == Some(text) && exit_code is None && signal
            is None,
    }
}

/// The borrowed outcome as a model.
pub open spec fn borrowed_outcome(outcome: Option<&RunOutcome>) -> Option<OutcomeModel> {
    match outcome {
        Some(inner) => Some(inner@),
        None => None,
    }
}

/// The borrowed text as a character sequence.
pub open spec fn borrowed_text(text: Option<&str>) -> Option<Seq<char>> {
    match text {
        Some(inner) => Some(inner@),
        None => None,
    }
}

fn holds_text(failure: Option<&str>, expected: &str) -> (r: bool)
    ensures
        r == (borrowed_text(failure) == Some(expected@)),
{
    match failure {
        Some(text) => text_eq(text, expected),
        None => false,
    }
}

/// Checks that the columns that repeat the outcome agree with it.
pub fn validate_outcome_columns(
    outcome: Option<&RunOutcome>,
    exit_code: Option<i32>,
    signal: Option<i32>,
    failure: Option<&str>,
) -> (r: Result<(), StoreError>)
    ensures
        if outcome_columns_agree(
            borrowed_outcome(outcome),
            exit_code,
            signal,
            borrowed_text(failure),
        ) {
            r is Ok
        } else {
            corrupt(r, "run outcome columns disagree"@)
        },
{
    let agree: bool = match outcome {
        None => exit_code.is_none() && signal.is_none() && failure.is_none(),
        Some(RunOutcome::Exit(expected)) => same_number(exit_code, Some(*expected))
            && signal.is_none() && failure.is_none(),
        Some(RunOutcome::Signal(expected)) => same_number(signal, Some(*expected))
            && exit_code.is_none() && failure.is_none(),
        Some(RunOutcome::Failure(expected)) => holds_text(failure, expected.as_str())
            && exit_code.is_none() && signal.is_none(),
        Some(RunOutcome::Interrupted(expected)) => holds_text(failure, expected.as_str())
            && exit_code.is_none() && signal.is_none(),
        Some(RunOutcome::Cancelled(expected)) => holds_text(failure, expected.as_str())
            && exit_code.is_none() && signal.is_none(),
    };
    if agree {
        Ok(())
    } else {
        Err(StoreError::Corrupt("run outcome columns disagree".to_owned()))
    }
}

// ---------------------------------------------------------------------------------------------
// Reading
// ---------------------------------------------------------------------------------------------
/// What is wrong with the columns of a run, if anything; the first fault counts.
pub open spec fn run_column_fault(row: RunRow) -> Option<Seq<char>> {
    if id_of_text(row.id@) is None || id_of_text(row.job_id@) is None {
        Some(identifier_message())
    } else if row.sequence < 0 {
        Some("negative sequence"@)
    } else if row.sequence == 0 {
        Some(primitive_message(PrimitiveError::Zero { field: "sequence" }))
    } else if timestamp_of_text(row.scheduled_for_utc@) is None {
        Some(timestamp_message())
    } else if timestamp_of_text(row.created_at_utc@) is None {
        Some(timestamp_message())
    } else if bad_optional_time(row.started_at_utc) || bad_optional_time(row.finished_at_utc) {
        Some(timestamp_message())
    } else if run_state_named(row.state@) is None {
        Some("unknown run state"@)
    } else if row.claim_token@.len() != 32 {
        Some("claim token is not 32 bytes"@)
    } else if row.monitor_identity is Err {
        Some(row.monitor_identity->Err_0@)
    } else if row.command_identity is Err {
        Some(row.command_identity->Err_0@)
    } else if row.process_group_id != group_of(row.command_identity->Ok_0) {
        Some("process group does not match command identity"@)
    } else if row.outcome is Err {
        Some(row.outcome->Err_0@)
    } else if !outcome_columns_agree(
        outcome_model(row.outcome->Ok_0),
        row.exit_code,
        row.terminating_signal,
        optional_text(row.failure),
    ) {
        Some("run outcome columns disagree"@)
    } else {
        None
    }
}

/// The run has the values of the columns.
pub open spec fn run_of_row(row: RunRow, run: RunModel) -> bool {
    &&& id_of_text(row.id@) == Some(run.id@)
    &&& id_of_text(row.job_id@) == Some(run.job_id@)
    &&& row.sequence == run.sequence@
    &&& timestamp_of_text(row.scheduled_for_utc@) == Some(run.scheduled_for_utc@)
    &&& timestamp_of_text(row.created_at_utc@) == Some(run.created_at_utc@)
    &&& is_optional_time(row.started_at_utc, run.started_at_utc)
    &&& is_optional_time(row.finished_at_utc, run.finished_at_utc)
    &&& run_state_named(row.state@) == Some(run.state)
    &&& row.claim_token@ == run.claim_token
    &&& row.monitor_identity matches Ok(identity) && identity_model(identity)
        == run.monitor_identity
    &&& row.command_identity matches Ok(identity) && identity_model(identity)
        == run.command_identity
    &&& row.outcome matches Ok(outcome) && outcome_model(outcome) == run.outcome
    &&& optional_text(row.stdout_path) == run.stdout_path
    &&& optional_text(row.stderr_path) == run.stderr_path
}

/// The result is what the row gives: each column must be readable, and the fields together must
/// make a run.
pub open spec fn decoded_run(row: RunRow, r: Result<Run, StoreError>) -> bool {
    match run_column_fault(row) {
        Some(fault) => corrupt(r, fault),
        None => exists|run: RunModel|
            {
                &&& #[trigger] run_of_row(row, run)
                &&& match snapshot_fault(run) {
                    Some(error) => corrupt(r, run_error_message(error)),
                    None => r matches Ok(read) && read@ == run,
                }
            },
    }
}

/// The run that a row holds.
pub fn decode_run_row(row: RunRow) -> (r: Result<Run, StoreError>)
    ensures
        decoded_run(row, r),
{
    let id: RunId = match read_run_id(row.id.as_str()) {
        Ok(id) => id,
        Err(error) => {
            return Err(error);
        },
    };
    let job_id: JobId = match read_job_id(row.job_id.as_str()) {
        Ok(id) => id,
        Err(error) => {
            return Err(error);
        },
    };
    let sequence: Sequence = match read_sequence(row.sequence) {
        Ok(sequence) => sequence,
        Err(error) => {
            return Err(error);
        },
    };
    let scheduled_for_utc: UtcTimestamp = match parse_timestamp(row.scheduled_for_utc.as_str()) {
        Ok(timestamp) => timestamp,
        Err(error) => {
            return Err(error);
        },
    };
    let created_at_utc: UtcTimestamp = match parse_timestamp(row.created_at_utc.as_str()) {
        Ok(timestamp) => timestamp,
        Err(error) => {
            return Err(error);
        },
    };
    let started_at_utc: Option<UtcTimestamp> = match parse_optional_timestamp(&row.started_at_utc) {
        Ok(time) => time,
        Err(error) => {
            return Err(error);
        },
    };
    let finished_at_utc: Option<UtcTimestamp> = match parse_optional_timestamp(
        &row.finished_at_utc,
    ) {
        Ok(time) => time,
        Err(error) => {
            return Err(error);
        },
    };
    let state: RunState = match decode_run_state(row.state.as_str()) {
        Ok(state) => state,
        Err(error) => {
            return Err(error);
        },
    };
    let claim_token: ClaimToken = match read_token(&row.claim_token) {
        Ok(token) => token,
        Err(error) => {
            return Err(error);
        },
    };
    let monitor_identity: Option<ProcessIdentitySnapshot> = match row.monitor_identity {
        Ok(identity) => identity,
        Err(detail) => {
            return Err(StoreError::Corrupt(detail));
        },
    };
    let command_identity: Option<ProcessIdentitySnapshot> = match row.command_identity {
        Ok(identity) => identity,
        Err(detail) => {
            return Err(StoreError::Corrupt(detail));
        },
    };
    let group: Option<i32> = match &command_identity {
        Some(identity) => Some(identity.process_group_id),
        None => None,
    };
    if !same_number(row.process_group_id, group) {
        return Err(StoreError::Corrupt("process group does not match command identity".to_owned()));
    }
    let outcome: Option<RunOutcome> = match row.outcome {
        Ok(outcome) => outcome,
        Err(detail) => {
            return Err(StoreError::Corrupt(detail));
        },
    };
    let failure: Option<&str> = match &row.failure {
        Some(text) => Some(text.as_str()),
        None => None,
    };
    let borrowed: Option<&RunOutcome> = match &outcome {
        Some(inner) => Some(inner),
        None => None,
    };
    match validate_outcome_columns(borrowed, row.exit_code, row.terminating_signal, failure) {
        Ok(_) => {},
        Err(error) => {
            return Err(error);
        },
    }
    let snapshot: RunSnapshot = RunSnapshot {
        id,
        job_id,
        sequence,
        scheduled_for_utc,
        created_at_utc,
        started_at_utc,
        finished_at_utc,
        state,
        claim_token,
        monitor_identity,
        command_identity,
        outcome,
        stdout_path: row.stdout_path,
        stderr_path: row.stderr_path,
    };
    assert(run_of_row(row, snapshot@));
    match Run::rehydrate(snapshot) {
        Ok(run) => Ok(run),
        Err(error) => Err(StoreError::Corrupt(error.to_string())),
    }
}

/// The row can be read.
pub open spec fn reads_as_run(row: RunRow) -> bool {
    exists|run: Run| decoded_run(row, Ok(run))
}

/// The runs that rows hold; the first row that cannot be read stops.
pub open spec fn decoded_runs(rows: Seq<RunRow>, r: Result<Vec<Run>, StoreError>) -> bool {
    match r {
        Ok(runs) => runs@.len() == rows.len() && forall|i: int|
            0 <= i < rows.len() ==> decoded_run(#[trigger] rows[i], Ok(runs@[i])),
        Err(error) => exists|i: int|
            {
                &&& 0 <= i < rows.len()
                &&& decoded_run(#[trigger] rows[i], Err(error))
                &&& forall|j: int| 0 <= j < i ==> reads_as_run(#[trigger] rows[j])
            },
    }
}

/// The runs that rows hold.
pub fn decode_run_rows(rows: Vec<RunRow>) -> (r: Result<Vec<Run>, StoreError>)
    ensures
        decoded_runs(rows@, r),
{
    let ghost all = rows@;
    let mut runs: Vec<Run> = Vec::new();
    for row in iter: rows
        invariant
            iter.seq() == all,
            runs@.len() == iter.index(),
            forall|i: int| 0 <= i < runs@.len() ==> decoded_run(#[trigger] all[i], Ok(runs@[i])),
    {
        let ghost index = runs@.len() as int;
        assert(row == all[index]);
        match decode_run_row(row) {
            Ok(run) => {
                runs.push(run);
            },
            Err(error) => {
                assert(decoded_run(all[index], Err(error)));
                assert forall|j: int| 0 <= j < index implies reads_as_run(#[trigger] all[j]) by {
                    assert(decoded_run(all[j], Ok(runs@[j])));
                }
                assert(decoded_runs(all, Err(error)));
                return Err(error);
            },
        }
    }
    Ok(runs)
}

// ---------------------------------------------------------------------------------------------
// Writing
// ---------------------------------------------------------------------------------------------
/// A column that may be empty was written for the timestamp.
pub open spec fn stores_optional_time(value: Option<String>, time: Option<UtcTimestamp>) -> bool {
    match time {
        Some(timestamp) => value matches Some(text) && stores_time(text@, timestamp@),
        None => value is None,
    }
}

/// The row holds the run.
pub open spec fn stores_run(row: RunRow, run: RunModel) -> bool {
    &&& row.id@ == id_text(run.id@)
    &&& id_of_text(row.id@) == Some(run.id@)
    &&& row.job_id@ == id_text(run.job_id@)
    &&& id_of_text(row.job_id@) == Some(run.job_id@)
    &&& 0 < row.sequence == run.sequence@
    &&& stores_time(row.scheduled_for_utc@, run.scheduled_for_utc@)
    &&& stores_time(row.created_at_utc@, run.created_at_utc@)
    &&& stores_optional_time(row.started_at_utc, run.started_at_utc)
    &&& stores_optional_time(row.finished_at_utc, run.finished_at_utc)
    &&& row.state@ == run_state_name(run.state)
    &&& row.claim_token@ == run.claim_token
    &&& row.claim_token@.len() == 32
    &&& row.monitor_identity matches Ok(identity) && identity_model(identity)
        == run.monitor_identity
    &&& row.command_identity matches Ok(identity) && identity_model(identity)
        == run.command_identity && row.process_group_id == group_of(identity)
    &&& row.outcome matches Ok(outcome) && outcome_model(outcome) == run.outcome
    &&& outcome_columns_agree(
        run.outcome,
        row.exit_code,
        row.terminating_signal,
        optional_text(row.failure),
    )
    &&& optional_text(row.stdout_path) == run.stdout_path
    &&& optional_text(row.stderr_path) == run.stderr_path
}

/// A claimed run: nothing but its claim is known.
pub open spec fn just_claimed(run: RunModel) -> bool {
    &&& run.state == RunState::Starting
    &&& run.started_at_utc is None
    &&& run.finished_at_utc is None
    &&& run.monitor_identity is None
    &&& run.command_identity is None
    &&& run.outcome is None
    &&& run.stdout_path is None
    &&& run.stderr_path is None
}

fn token_bytes(token: &ClaimToken) -> (r: Vec<u8>)
    ensures
        r@ == token@,
        r@.len() == 32,
{
    let bytes: &[u8; 32] = token.as_bytes();
    let mut out: Vec<u8> = Vec::new();
    let mut index: usize = 0;
    while index < 32
        invariant
            index <= 32,
            bytes@.len() == 32,
            out@ == bytes@.take(index as int),
        decreases 32 - index,
    {
        out.push(bytes[index]);
        assert(out@ =~= bytes@.take(index + 1));
        index += 1;
    }
    assert(bytes@.take(32) =~= bytes@);
    out
}

/// The row of a run that was just claimed; a sequence beyond the range of a column is refused.
pub fn claim_row(run: &Run) -> (r: Result<RunRow, StoreError>)
    requires
        just_claimed(run@),
    ensures
        if run@.sequence@ > i64::MAX {
            corrupt(r, "counter exceeds SQLite i64"@)
        } else {
            r matches Ok(row) && stores_run(row, run@)
        },
{
    let snapshot: RunSnapshot = run.snapshot();
    let sequence: i64 = match to_sql_u64(snapshot.sequence.get()) {
        Ok(sequence) => sequence,
        Err(error) => {
            return Err(error);
        },
    };
    Ok(
        RunRow {
            id: snapshot.id.to_string(),
            job_id: snapshot.job_id.to_string(),
            sequence,
            scheduled_for_utc: snapshot.scheduled_for_utc.to_string(),
            created_at_utc: snapshot.created_at_utc.to_string(),
            started_at_utc: None,
            finished_at_utc: None,
            state: encode_run_state(snapshot.state).to_owned(),
            claim_token: token_bytes(&snapshot.claim_token),
            monitor_identity: Ok(None),
            command_identity: Ok(None),
            process_group_id: None,
            exit_code: None,
            terminating_signal: None,
            failure: None,
            outcome: Ok(None),
            stdout_path: None,
            stderr_path: None,
        },
    )
}

/// The columns that are written when the command of a run was started.
pub struct StartColumns {
    pub started_at_utc: String,
    pub monitor_identity: ProcessIdentitySnapshot,
    pub command_identity: ProcessIdentitySnapshot,
    pub process_group_id: i32,
    pub stdout_path: String,
    pub stderr_path: String,
}

/// The row once the columns of a start were written.
pub open spec fn row_started(row: RunRow, columns: StartColumns, started: RunRow) -> bool {
    &&& started == RunRow {
        started_at_utc: Some(columns.started_at_utc),
        state: started.state,
        monitor_identity: Ok(Some(columns.monitor_identity)),
        command_identity: Ok(Some(columns.command_identity)),
        process_group_id: Some(columns.process_group_id),
        stdout_path: Some(columns.stdout_path),
        stderr_path: Some(columns.stderr_path),
        ..row
    }
    &&& started.state@ == "running"@
}

/// The columns tell that the command was started so.
pub open spec fn tells_start(
    columns: StartColumns,
    started: UtcTimestamp,
    monitor: IdentityModel,
    command: IdentityModel,
    stdout_path: Seq<char>,
    stderr_path: Seq<char>,
) -> bool {
    &&& stores_time(columns.started_at_utc@, started@)
    &&& columns.monitor_identity@ == monitor
    &&& columns.command_identity@ == command
    &&& columns.process_group_id == command.process_group_id
    &&& columns.stdout_path@ == stdout_path
    &&& columns.stderr_path@ == stderr_path
}

/// The columns for a start.
pub fn start_columns(
    started_at_utc: UtcTimestamp,
    monitor_identity: &ProcessIdentitySnapshot,
    command_identity: &ProcessIdentitySnapshot,
    stdout_path: &str,
    stderr_path: &str,
) -> (r: StartColumns)
    ensures
        tells_start(
            r,
            started_at_utc,
            monitor_identity@,
            command_identity@,
            stdout_path@,
            stderr_path@,
        ),
{
    StartColumns {
        started_at_utc: started_at_utc.to_string(),
        monitor_identity: monitor_identity.clone(),
        command_identity: command_identity.clone(),
        process_group_id: command_identity.process_group_id,
        stdout_path: copy_text(stdout_path),
        stderr_path: copy_text(stderr_path),
    }
}

/// The columns that are written when a run ended.
pub struct FinishColumns {
    pub finished_at_utc: String,
    pub state: &'static str,
    pub exit_code: Option<i32>,
    pub terminating_signal: Option<i32>,
    pub failure: Option<String>,
    pub outcome: RunOutcome,
}

/// The row once the columns of an end were written.
pub open spec fn row_finished(row: RunRow, columns: FinishColumns, finished: RunRow) -> bool {
    &&& finished == RunRow {
        finished_at_utc: Some(columns.finished_at_utc),
        state: finished.state,
        exit_code: columns.exit_code,
        terminating_signal: columns.terminating_signal,
        failure: columns.failure,
        outcome: Ok(Some(columns.outcome)),
        ..row
    }
    &&& finished.state@ == columns.state@
}

/// The columns tell that the run ended so.
pub open spec fn tells_end(
    columns: FinishColumns,
    finished: UtcTimestamp,
    state: RunState,
    outcome: OutcomeModel,
) -> bool {
    &&& stores_time(columns.finished_at_utc@, finished@)
    &&& columns.state@ == run_state_name(state)
    &&& columns.outcome@ == outcome
    &&& outcome_columns_agree(
        Some(outcome),
        columns.exit_code,
        columns.terminating_signal,
        optional_text(columns.failure),
    )
}

/// The columns for an end.
pub fn finish_columns(finished_at_utc: UtcTimestamp, state: RunState, outcome: &RunOutcome) -> (r:
    FinishColumns)
    ensures
        tells_end(r, finished_at_utc, state, outcome@),
{
    let (exit_code, terminating_signal, failure): (Option<i32>, Option<i32>, Option<String>) =
        match outcome {
        RunOutcome::Exit(code) => (Some(*code), None, None),
        RunOutcome::Signal(signal) => (None, Some(*signal), None),
        RunOutcome::Failure(message) => (None, None, Some(copy_text(message.as_str()))),
        RunOutcome::Interrupted(message) => (None, None, Some(copy_text(message.as_str()))),
        RunOutcome::Cancelled(message) => (None, None, Some(copy_text(message.as_str()))),
    };
    FinishColumns {
        finished_at_utc: finished_at_utc.to_string(),
        state: encode_run_state(state),
        exit_code,
        terminating_signal,
        failure,
        outcome: outcome.clone(),
    }
}

// ---------------------------------------------------------------------------------------------
// Laws
// ---------------------------------------------------------------------------------------------
/// A row that holds a run is read as that run.
pub proof fn lemma_stored_run_reads_back(row: RunRow, run: RunModel, r: Result<Run, StoreError>)
    requires
        stores_run(row, run),
        snapshot_fault(run) is None,
        decoded_run(row, r),
    ensures
        r matches Ok(read) && read@ == run,
{
    lemma_names_read_back(
        JobState::Waiting,
        run.state,
        RuntimeTier::Session,
        MissedPolicy::Hold,
    );
    assert(run_column_fault(row) is None);
    assert forall|other: RunModel| #[trigger] run_of_row(row, other) implies other == run by {
        lemma_row_determines_run(row, other, run);
    }
}

/// A row that holds a run holds the started run once the columns of the start were written, and
/// the ended run once those of the end were.
pub proof fn lemma_updated_row_holds_run(
    row: RunRow,
    run: RunModel,
    start: StartColumns,
    start_time: UtcTimestamp,
    started: RunRow,
    finish: FinishColumns,
    finish_time: UtcTimestamp,
    state: RunState,
    finished: RunRow,
)
    requires
        stores_run(row, run),
        stores_time(start.started_at_utc@, start_time@),
        start.process_group_id == start.command_identity.process_group_id,
        row_started(row, start, started),
        stores_time(finish.finished_at_utc@, finish_time@),
        finish.state@ == run_state_name(state),
        outcome_columns_agree(
            Some(finish.outcome@),
            finish.exit_code,
            finish.terminating_signal,
            optional_text(finish.failure),
        ),
        row_finished(row, finish, finished),
    ensures
        stores_run(
            started,
            (RunModel {
                started_at_utc: Some(start_time),
                state: RunState::Running,
                monitor_identity: Some(start.monitor_identity@),
                command_identity: Some(start.command_identity@),
                stdout_path: Some(start.stdout_path@),
                stderr_path: Some(start.stderr_path@),
                ..run
            }),
        ),
        stores_run(
            finished,
            (RunModel {
                state,
                finished_at_utc: Some(finish_time),
                outcome: Some(finish.outcome@),
                ..run
            }),
        ),
{
}

proof fn lemma_row_determines_run(row: RunRow, a: RunModel, b: RunModel)
    requires
        run_of_row(row, a),
        run_of_row(row, b),
    ensures
        a == b,
{
    let revision = arbitrary();
    lemma_id_views_injective(a.job_id, b.job_id, a.id, b.id);
    lemma_counter_views_injective(revision, revision, a.sequence, b.sequence);
    lemma_timestamp_view_injective(a.scheduled_for_utc, b.scheduled_for_utc);
    lemma_timestamp_view_injective(a.created_at_utc, b.created_at_utc);
    if row.started_at_utc is Some {
        lemma_timestamp_view_injective(a.started_at_utc->0, b.started_at_utc->0);
    }
    if row.finished_at_utc is Some {
        lemma_timestamp_view_injective(a.finished_at_utc->0, b.finished_at_utc->0);
    }
}

} // verus!
