//! Claimed run lifecycle persistence.
use vstd::prelude::*;

use super::connection::{lemma_ran_nothing, Connection, Statement};
use super::database::{
    answered, changed_one, map_write_error, one_row, store_message, write_fault, written,
    DatabaseFailure, StoreError, StoreFault,
};
use super::job_store::JobStore;
use super::names::{encode_run_state, run_state_name};
use super::run_row::{
    claim_row, decode_run_row, decode_run_rows, decoded_run, decoded_runs, finish_columns,
    just_claimed, start_columns, stores_run, tells_end, tells_start, FinishColumns, RunRow,
    StartColumns,
};
use super::statements::{ran_find_run, ran_has_run, ran_last_sequence};
use super::tables::Database;
use super::transaction::{
    kept, lemma_transaction_is_all_or_nothing, settled, settlement, Transaction,
};
use crate::application::cancel::{CancellationStore, CancellationStoreError};
use crate::domain::id::{id_text, is_fresh, JobId, RunId};
use crate::domain::primitives::{Sequence, UtcTimestamp};
use crate::domain::run::{
    finish_fault, run_error_message, start_fault, state_of_outcome, ClaimToken, IdentityModel,
    OutcomeModel, ProcessIdentitySnapshot, Run, RunModel, RunOutcome,
};
use crate::domain::state::RunState;
use crate::outside;
use crate::outside::timestamp_text;
use crate::text::{copy_text, text_eq};

verus! {

// ---------------------------------------------------------------------------------------------
// Decisions
// ---------------------------------------------------------------------------------------------
/// The result is what the answer to a query for one run gives.
pub open spec fn loaded_run(
    found: Result<Option<RunRow>, DatabaseFailure>,
    r: Result<Option<Run>, StoreError>,
) -> bool {
    match found {
        Err(failure) => r matches Err(error) && error@ == StoreFault::Sqlite(failure.spec_detail()),
        Ok(None) => r == Ok::<Option<Run>, StoreError>(None),
        Ok(Some(row)) => match r {
            Ok(Some(run)) => decoded_run(row, Ok(run)),
            Ok(None) => false,
            Err(error) => decoded_run(row, Err(error)),
        },
    }
}

/// The run in the answer to a query for one run.
pub fn read_run(found: Result<Option<RunRow>, DatabaseFailure>) -> (r: Result<
    Option<Run>,
    StoreError,
>)
    ensures
        loaded_run(found, r),
{
    match answered(found) {
        Ok(None) => Ok(None),
        Ok(Some(row)) => match decode_run_row(row) {
            Ok(run) => Ok(Some(run)),
            Err(error) => Err(error),
        },
        Err(error) => Err(error),
    }
}

/// The result is what the answer to a query for runs gives.
pub open spec fn loaded_runs(
    found: Result<Vec<RunRow>, DatabaseFailure>,
    r: Result<Vec<Run>, StoreError>,
) -> bool {
    match found {
        Err(failure) => r matches Err(error) && error@ == StoreFault::Sqlite(failure.spec_detail()),
        Ok(rows) => decoded_runs(rows@, r),
    }
}

/// The runs in the answer to a query for runs.
pub fn read_runs(found: Result<Vec<RunRow>, DatabaseFailure>) -> (r: Result<Vec<Run>, StoreError>)
    ensures
        loaded_runs(found, r),
{
    match answered(found) {
        Ok(rows) => decode_run_rows(rows),
        Err(error) => Err(error),
    }
}

/// The sequence after the highest one of a job.
pub fn next_sequence(last: i64) -> (r: Result<Sequence, StoreError>)
    ensures
        if last < 0 {
            r matches Err(error) && error@ == StoreFault::Corrupt("run sequence overflow"@)
        } else {
            r matches Ok(sequence) && sequence@ == last + 1
        },
{
    if last < 0 {
        return Err(StoreError::Corrupt("run sequence overflow".to_owned()));
    }
    match Sequence::new(last as u64 + 1) {
        Ok(sequence) => Ok(sequence),
        Err(error) => Err(StoreError::Domain(error.to_string())),
    }
}

/// A claim of a run for one deadline of a job: a deadline is claimed once, and the run is the next
/// of its job.
pub open spec fn claim_fault(duplicate: bool, last_sequence: i64) -> Option<StoreFault> {
    if duplicate {
        Some(StoreFault::DuplicateClaim)
    } else if last_sequence < 0 {
        Some(StoreFault::Corrupt("run sequence overflow"@))
    } else {
        None
    }
}

/// The run of a claim.
pub open spec fn claimed_run(
    run: RunModel,
    job_id: JobId,
    last_sequence: i64,
    scheduled_for_utc: UtcTimestamp,
    created_at_utc: UtcTimestamp,
) -> bool {
    &&& is_fresh(run.id@)
    &&& run.job_id == job_id
    &&& run.sequence@ == last_sequence + 1
    &&& run.scheduled_for_utc == scheduled_for_utc
    &&& run.created_at_utc == created_at_utc
    &&& just_claimed(run)
}

/// Claims a run for a deadline that has none, given random bytes for its token.
pub fn claim(
    job_id: JobId,
    last_sequence: i64,
    scheduled_for_utc: UtcTimestamp,
    created_at_utc: UtcTimestamp,
    token: Result<[u8; 32], String>,
) -> (r: Result<Run, StoreError>)
    ensures
        match claim_fault(false, last_sequence) {
            Some(fault) => r matches Err(error) && error@ == fault,
            None => match token {
                Err(detail) => r matches Err(error) && error@ == StoreFault::Random(detail@),
                Ok(bytes) => r matches Ok(run) && claimed_run(
                    run@,
                    job_id,
                    last_sequence,
                    scheduled_for_utc,
                    created_at_utc,
                ) && run@.claim_token == bytes@,
            },
        },
{
    let sequence: Sequence = match next_sequence(last_sequence) {
        Ok(sequence) => sequence,
        Err(error) => {
            return Err(error);
        },
    };
    match token {
        Ok(bytes) => Ok(
            Run::new(
                job_id,
                sequence,
                scheduled_for_utc,
                created_at_utc,
                ClaimToken::from_bytes(bytes),
            ),
        ),
        Err(detail) => Err(StoreError::Random(detail)),
    }
}

/// The result of inserting a claim: a violated constraint means that the deadline is claimed.
pub open spec fn run_inserted(
    result: Result<usize, DatabaseFailure>,
    r: Result<(), StoreError>,
) -> bool {
    match result {
        Err(DatabaseFailure::Constraint(_)) => r matches Err(error) && error@
            == StoreFault::DuplicateClaim,
        _ => one_row(result, StoreFault::Corrupt("run claim affected no row"@), r),
    }
}

/// The outcome of inserting a claim.
pub fn inserted_run(result: Result<usize, DatabaseFailure>) -> (r: Result<(), StoreError>)
    ensures
        run_inserted(result, r),
{
    match result {
        Ok(changed) => {
            if changed == 1 {
                Ok(())
            } else {
                Err(StoreError::Corrupt("run claim affected no row".to_owned()))
            }
        },
        Err(DatabaseFailure::Constraint(_)) => Err(StoreError::DuplicateClaim),
        Err(failure) => Err(map_write_error(failure)),
    }
}

/// Checks that a token is that of the claim of a run.
pub fn verify_claim(run: &Run, claim_token: ClaimToken) -> (r: Result<(), StoreError>)
    ensures
        if run@.claim_token == claim_token@ {
            r is Ok
        } else {
            r matches Err(error) && error@ == StoreFault::InvalidClaim
        },
{
    if run.claim_token().same(&claim_token) {
        Ok(())
    } else {
        Err(StoreError::InvalidClaim)
    }
}

/// Why a stored run may not be changed by the holder of a token, if so.
pub open spec fn claim_mismatch(found: Option<RunModel>, token: Seq<u8>) -> Option<StoreFault> {
    match found {
        None => Some(StoreFault::NotFound),
        Some(run) => if run.claim_token == token {
            None
        } else {
            Some(StoreFault::InvalidClaim)
        },
    }
}

/// The run as a model.
pub open spec fn found_run(found: Option<Run>) -> Option<RunModel> {
    match found {
        Some(run) => Some(run@),
        None => None,
    }
}

/// The run that was found, for the holder of its token.
pub fn require_claim(found: Option<Run>, claim_token: ClaimToken) -> (r: Result<Run, StoreError>)
    ensures
        match claim_mismatch(found_run(found), claim_token@) {
            Some(fault) => r matches Err(error) && error@ == fault,
            None => found matches Some(run) && r == Ok::<Run, StoreError>(run),
        },
{
    match found {
        None => Err(StoreError::NotFound),
        Some(run) => match verify_claim(&run, claim_token) {
            Ok(_) => Ok(run),
            Err(error) => Err(error),
        },
    }
}

/// Why a stored run may not be marked as running, if so.
pub open spec fn mark_fault(
    found: Option<RunModel>,
    token: Seq<u8>,
    started: UtcTimestamp,
    monitor: IdentityModel,
    command: IdentityModel,
    stdout_path: Seq<char>,
    stderr_path: Seq<char>,
) -> Option<StoreFault> {
    match claim_mismatch(found, token) {
        Some(fault) => Some(fault),
        None => match start_fault(
            found->0,
            started,
            monitor,
            command,
            stdout_path,
            stderr_path,
        ) {
            Some(error) => Some(StoreFault::Domain(run_error_message(error))),
            None => None,
        },
    }
}

/// The run after its command was started.
pub open spec fn run_started(
    before: RunModel,
    started: UtcTimestamp,
    monitor: IdentityModel,
    command: IdentityModel,
    stdout_path: Seq<char>,
    stderr_path: Seq<char>,
) -> RunModel {
    RunModel {
        started_at_utc: Some(started),
        state: RunState::Running,
        monitor_identity: Some(monitor),
        command_identity: Some(command),
        stdout_path: Some(stdout_path),
        stderr_path: Some(stderr_path),
        ..before
    }
}

/// Marks a run that was loaded as running.
#[allow(clippy::too_many_arguments)]
pub fn mark_found(
    found: Option<Run>,
    claim_token: ClaimToken,
    started_at_utc: UtcTimestamp,
    monitor_identity: ProcessIdentitySnapshot,
    command_identity: ProcessIdentitySnapshot,
    stdout_path: &str,
    stderr_path: &str,
) -> (r: Result<Run, StoreError>)
    ensures
        match mark_fault(
            found_run(found),
            claim_token@,
            started_at_utc,
            monitor_identity@,
            command_identity@,
            stdout_path@,
            stderr_path@,
        ) {
            Some(fault) => r matches Err(error) && error@ == fault,
            None => r matches Ok(run) && run@ == run_started(
                found->0@,
                started_at_utc,
                monitor_identity@,
                command_identity@,
                stdout_path@,
                stderr_path@,
            ),
        },
{
    match require_claim(found, claim_token) {
        Ok(run) => match run.mark_running(
            started_at_utc,
            monitor_identity,
            command_identity,
            copy_text(stdout_path),
            copy_text(stderr_path),
        ) {
            Ok(running) => Ok(running),
            Err(error) => Err(StoreError::Domain(error.to_string())),
        },
        Err(error) => Err(error),
    }
}

/// Whether both outcomes are the same.
pub fn same_outcome(left: &RunOutcome, right: &RunOutcome) -> (r: bool)
    ensures
        r == (left@ == right@),
{
    match (left, right) {
        (RunOutcome::Exit(a), RunOutcome::Exit(b)) => *a == *b,
        (RunOutcome::Signal(a), RunOutcome::Signal(b)) => *a == *b,
        (RunOutcome::Failure(a), RunOutcome::Failure(b)) => text_eq(a.as_str(), b.as_str()),
        (RunOutcome::Interrupted(a), RunOutcome::Interrupted(b)) => text_eq(a.as_str(), b.as_str()),
        (RunOutcome::Cancelled(a), RunOutcome::Cancelled(b)) => text_eq(a.as_str(), b.as_str()),
        _ => false,
    }
}

/// What to do with a run that is to change.
pub enum RunChange {
    /// Nothing: the run is as it should be.
    Unchanged(Run),
    /// Store the run.
    Store(Run),
}

/// Why the end of a stored run may not be recorded, if so. A run that ended just so before is no
/// fault.
pub open spec fn terminal_fault(
    found: Option<RunModel>,
    token: Seq<u8>,
    finished: UtcTimestamp,
    outcome: OutcomeModel,
) -> Option<StoreFault> {
    match claim_mismatch(found, token) {
        Some(fault) => Some(fault),
        None => {
            let run = found->0;
            if run.state.terminal() {
                if run.finished_at_utc == Some(finished) && run.outcome == Some(outcome) {
                    None
                } else {
                    Some(StoreFault::Conflict)
                }
            } else {
                match finish_fault(run, finished, outcome) {
                    Some(error) => Some(StoreFault::Domain(run_error_message(error))),
                    None => None,
                }
            }
        },
    }
}

/// The run after it ended.
pub open spec fn run_ended(before: RunModel, finished: UtcTimestamp, outcome: OutcomeModel) -> RunModel {
    RunModel {
        state: state_of_outcome(outcome),
        finished_at_utc: Some(finished),
        outcome: Some(outcome),
        ..before
    }
}

/// Records the end of a run that was loaded; recording it again changes nothing.
pub fn finish_found(
    found: Option<Run>,
    claim_token: ClaimToken,
    finished_at_utc: UtcTimestamp,
    outcome: &RunOutcome,
) -> (r: Result<RunChange, StoreError>)
    ensures
        match terminal_fault(found_run(found), claim_token@, finished_at_utc, outcome@) {
            Some(fault) => r matches Err(error) && error@ == fault,
            None => if found->0@.state.terminal() {
                r == Ok::<RunChange, StoreError>(RunChange::Unchanged(found->0))
            } else {
                r matches Ok(RunChange::Store(run)) && run@ == run_ended(
                    found->0@,
                    finished_at_utc,
                    outcome@,
                )
            },
        },
{
    let run: Run = match require_claim(found, claim_token) {
        Ok(run) => run,
        Err(error) => {
            return Err(error);
        },
    };
    if run.state().is_terminal() {
        let same_time: bool = match run.finished_at_utc() {
            Some(finished) => finished.same(finished_at_utc),
            None => false,
        };
        let same: bool = match run.outcome() {
            Some(recorded) => same_outcome(recorded, outcome),
            None => false,
        };
        if same_time && same {
            return Ok(RunChange::Unchanged(run));
        }
        return Err(StoreError::Conflict);
    }
    match run.with_outcome(finished_at_utc, outcome.clone()) {
        Ok(completed) => Ok(RunChange::Store(completed)),
        Err(error) => Err(StoreError::Domain(error.to_string())),
    }
}

/// Requests the cancellation of a run that was loaded. One that ended, or whose cancellation was
/// requested before, is left as it is.
pub fn cancel_found(found: Option<Run>, claim_token: ClaimToken) -> (r: Result<
    RunChange,
    StoreError,
>)
    ensures
        match claim_mismatch(found_run(found), claim_token@) {
            Some(fault) => r matches Err(error) && error@ == fault,
            None => if found->0@.state == RunState::CancelRequested || found->0@.state.terminal() {
                r == Ok::<RunChange, StoreError>(RunChange::Unchanged(found->0))
            } else {
                r matches Ok(RunChange::Store(run)) && run@ == (RunModel {
                    state: RunState::CancelRequested,
                    ..found->0@
                })
            },
        },
{
    let run: Run = match require_claim(found, claim_token) {
        Ok(run) => run,
        Err(error) => {
            return Err(error);
        },
    };
    if run.state() == RunState::CancelRequested || run.state().is_terminal() {
        return Ok(RunChange::Unchanged(run));
    }
    match run.request_cancellation() {
        Ok(requested) => Ok(RunChange::Store(requested)),
        Err(error) => Err(StoreError::Domain(error.to_string())),
    }
}

/// What the database answers while a run is claimed, and the random bytes for its token.
pub struct ClaimAnswers {
    pub duplicate: Result<bool, DatabaseFailure>,
    pub last: Result<i64, DatabaseFailure>,
    pub token: Result<[u8; 32], String>,
    pub inserted: Result<usize, DatabaseFailure>,
}

/// Why a claim fails with the answers, if so.
pub open spec fn claim_refusal(answers: ClaimAnswers) -> Option<StoreFault> {
    match answers.duplicate {
        Err(failure) => Some(StoreFault::Sqlite(failure.spec_detail())),
        Ok(duplicate) => if duplicate {
            Some(StoreFault::DuplicateClaim)
        } else {
            match answers.last {
                Err(failure) => Some(StoreFault::Sqlite(failure.spec_detail())),
                Ok(last) => match claim_fault(false, last) {
                    Some(fault) => Some(fault),
                    None => match answers.token {
                        Err(detail) => Some(StoreFault::Random(detail@)),
                        Ok(_) => if last == i64::MAX {
                            Some(StoreFault::Corrupt("counter exceeds SQLite i64"@))
                        } else {
                            match answers.inserted {
                                Ok(changed) => if changed == 1 {
                                    None
                                } else {
                                    Some(StoreFault::Corrupt("run claim affected no row"@))
                                },
                                Err(DatabaseFailure::Constraint(_)) => Some(
                                    StoreFault::DuplicateClaim,
                                ),
                                Err(failure) => Some(write_fault(failure)),
                            }
                        },
                    },
                },
            }
        },
    }
}

/// The token was drawn from the random bytes of the operating system.
pub closed spec fn drawn_token(token: Result<[u8; 32], String>) -> bool {
    call_ensures(outside::random_token, (), token)
}

/// The token of a claim is drawn: the deadline has no run, and the last sequence was found.
pub open spec fn claim_draws_token(answers: ClaimAnswers) -> bool {
    answers.duplicate == Ok::<bool, DatabaseFailure>(false) && answers.last is Ok
}

/// A claim reaches the table of runs with the answers.
pub open spec fn claim_reaches_table(answers: ClaimAnswers) -> bool {
    &&& answers.duplicate == Ok::<bool, DatabaseFailure>(false)
    &&& answers.last matches Ok(last) && 0 <= last < i64::MAX
    &&& answers.token is Ok
}

/// The questions and statements of a claim of the run were asked and run, with the answers: the
/// deadline and the last sequence are asked for first, and at most one row is inserted.
pub open spec fn claim_run_statements<D: Database>(
    before: Connection<D>,
    after: Connection<D>,
    run: RunModel,
    answers: ClaimAnswers,
) -> bool {
    &&& ran_has_run(
        before.state(),
        id_text(run.job_id@),
        timestamp_text(run.scheduled_for_utc@),
        answers.duplicate,
    )
    &&& answers.duplicate == Ok::<bool, DatabaseFailure>(false) ==> ran_last_sequence(
        before.state(),
        id_text(run.job_id@),
        answers.last,
    )
    &&& if claim_reaches_table(answers) {
        exists|row: RunRow|
            {
                &&& #[trigger] stores_run(row, run)
                &&& after.ran(
                    before,
                    seq![Statement::InsertRun { run: row, answer: answers.inserted }],
                )
            }
    } else {
        after == before
    }
}

/// The result is what writing a claim of the run gives with the answers.
pub open spec fn claim_written<D: Database>(
    before: Connection<D>,
    after: Connection<D>,
    job_id: JobId,
    scheduled_for_utc: UtcTimestamp,
    created_at_utc: UtcTimestamp,
    run: RunModel,
    answers: ClaimAnswers,
    r: Result<Run, StoreError>,
) -> bool {
    &&& run.job_id == job_id
    &&& run.scheduled_for_utc == scheduled_for_utc
    &&& claim_run_statements(before, after, run, answers)
    &&& claim_draws_token(answers) ==> drawn_token(answers.token)
    &&& claim_reaches_table(answers) ==> {
        &&& claimed_run(run, job_id, answers.last->Ok_0, scheduled_for_utc, created_at_utc)
        &&& run.claim_token == answers.token->Ok_0@
    }
    &&& match claim_refusal(answers) {
        Some(fault) => r matches Err(error) && error@ == fault,
        None => r matches Ok(claimed) && claimed@ == run,
    }
}

/// The result is what claiming a run gives: the claim is written in a transaction, and holds only
/// once that was made permanent.
pub open spec fn claim_outcome<D: Database>(
    before: JobStore<D>,
    after: JobStore<D>,
    job_id: JobId,
    scheduled_for_utc: UtcTimestamp,
    created_at_utc: UtcTimestamp,
    transaction: Transaction<D, Run>,
    run: RunModel,
    answers: ClaimAnswers,
    r: Result<Run, StoreError>,
) -> bool {
    &&& transaction.carried_out(before.connection, after.connection, r)
    &&& transaction.began is Ok ==> claim_written(
        transaction.opened,
        transaction.closed,
        job_id,
        scheduled_for_utc,
        created_at_utc,
        run,
        answers,
        transaction.outcome,
    )
}

/// A claim keeps the row of its run where it succeeds, and nothing where it fails.
pub proof fn lemma_claim_is_all_or_nothing<D: Database>(
    before: JobStore<D>,
    after: JobStore<D>,
    job_id: JobId,
    scheduled_for_utc: UtcTimestamp,
    created_at_utc: UtcTimestamp,
    transaction: Transaction<D, Run>,
    run: RunModel,
    answers: ClaimAnswers,
    r: Result<Run, StoreError>,
)
    requires
        claim_outcome(
            before,
            after,
            job_id,
            scheduled_for_utc,
            created_at_utc,
            transaction,
            run,
            answers,
            r,
        ),
    ensures
        exists|statements: Seq<Statement>|
            {
                &&& #[trigger] after.connection.ran(before.connection, statements)
                &&& match r {
                    Err(_) => kept(statements, None) == Seq::<Statement>::empty(),
                    Ok(claimed) => exists|row: RunRow|
                        {
                            &&& #[trigger] stores_run(row, claimed@)
                            &&& kept(statements, None) == seq![
                                Statement::InsertRun { run: row, answer: Ok(1) },
                            ]
                        },
                }
            },
{
    let opened = transaction.opened;
    let closed = transaction.closed;
    let row = choose|row: RunRow|
        {
            &&& #[trigger] stores_run(row, run)
            &&& closed.ran(opened, seq![Statement::InsertRun { run: row, answer: answers.inserted }])
        };
    let writes = if transaction.began is Err || !claim_reaches_table(answers) {
        Seq::empty()
    } else {
        seq![Statement::InsertRun { run: row, answer: answers.inserted }]
    };
    if closed == opened {
        lemma_ran_nothing(opened);
    }
    lemma_transaction_is_all_or_nothing(
        transaction,
        before.connection,
        after.connection,
        writes,
        r,
    );
    if r is Ok {
        assert(stores_run(row, r->Ok_0@));
        assert(answers.inserted == Ok::<usize, DatabaseFailure>(1));
    }
}

/// The result of storing a changed run, given the answer of the database: someone else may have
/// changed the row.
pub open spec fn stored_as(
    changed: Result<usize, DatabaseFailure>,
    after: RunModel,
    r: Result<Run, StoreError>,
) -> bool {
    match changed {
        Ok(rows) => if rows == 1 {
            r matches Ok(run) && run@ == after
        } else {
            r matches Err(error) && error@ == StoreFault::Conflict
        },
        Err(failure) => r matches Err(error) && error@ == write_fault(failure),
    }
}

/// What the database answers while a run is changed, and the run as it was read.
pub struct RunAnswers {
    pub found: Result<Option<RunRow>, DatabaseFailure>,
    pub loaded: Result<Option<Run>, StoreError>,
    pub changed: Result<usize, DatabaseFailure>,
}

/// The run was asked for and read.
pub open spec fn run_looked_up<D: Database>(
    before: Connection<D>,
    id: RunId,
    answers: RunAnswers,
) -> bool {
    &&& ran_find_run(before.state(), id_text(id@), answers.found)
    &&& loaded_run(answers.found, answers.loaded)
}

/// The start of a run.
pub struct Start {
    pub started: UtcTimestamp,
    pub monitor: IdentityModel,
    pub command: IdentityModel,
    pub stdout_path: Seq<char>,
    pub stderr_path: Seq<char>,
}

impl Start {
    /// Why a stored run may not be marked as started so, if so.
    pub open spec fn fault(self, found: Option<RunModel>, token: Seq<u8>) -> Option<StoreFault> {
        mark_fault(
            found,
            token,
            self.started,
            self.monitor,
            self.command,
            self.stdout_path,
            self.stderr_path,
        )
    }

    /// The run after this start.
    pub open spec fn gives(self, before: RunModel) -> RunModel {
        run_started(
            before,
            self.started,
            self.monitor,
            self.command,
            self.stdout_path,
            self.stderr_path,
        )
    }

    /// The columns tell this start.
    pub open spec fn told_by(self, columns: StartColumns) -> bool {
        tells_start(
            columns,
            self.started,
            self.monitor,
            self.command,
            self.stdout_path,
            self.stderr_path,
        )
    }
}

/// The result is what marking a run as running gives with the answers.
pub open spec fn mark_outcome<D: Database>(
    before: Connection<D>,
    after: Connection<D>,
    id: RunId,
    token: ClaimToken,
    start: Start,
    answers: RunAnswers,
    r: Result<Run, StoreError>,
) -> bool {
    &&& run_looked_up(before, id, answers)
    &&& match answers.loaded {
        Err(error) => after == before && r == Err::<Run, StoreError>(error),
        Ok(found) => match start.fault(found_run(found), token@) {
            Some(fault) => after == before && (r matches Err(error) && error@ == fault),
            None => {
                &&& exists|columns: StartColumns|
                    {
                        &&& #[trigger] start.told_by(columns)
                        &&& after.ran(
                            before,
                            seq![
                                Statement::StartRun {
                                    id: id_text(id@),
                                    token,
                                    columns,
                                    answer: answers.changed,
                                },
                            ],
                        )
                    }
                &&& stored_as(answers.changed, start.gives(found->0@), r)
            },
        },
    }
}

/// The result is what recording the end of a run gives with the answers.
pub open spec fn finish_outcome<D: Database>(
    before: Connection<D>,
    after: Connection<D>,
    id: RunId,
    token: ClaimToken,
    finished: UtcTimestamp,
    outcome: OutcomeModel,
    answers: RunAnswers,
    r: Result<Run, StoreError>,
) -> bool {
    &&& run_looked_up(before, id, answers)
    &&& match answers.loaded {
        Err(error) => after == before && r == Err::<Run, StoreError>(error),
        Ok(found) => match terminal_fault(found_run(found), token@, finished, outcome) {
            Some(fault) => after == before && (r matches Err(error) && error@ == fault),
            None => if found->0@.state.terminal() {
                after == before && r == Ok::<Run, StoreError>(found->0)
            } else {
                &&& exists|columns: FinishColumns|
                    {
                        &&& #[trigger] tells_end(
                            columns,
                            finished,
                            state_of_outcome(outcome),
                            outcome,
                        )
                        &&& after.ran(
                            before,
                            seq![
                                Statement::FinishRun {
                                    id: id_text(id@),
                                    token,
                                    ending: columns,
                                    answer: answers.changed,
                                },
                            ],
                        )
                    }
                &&& stored_as(answers.changed, run_ended(found->0@, finished, outcome), r)
            },
        },
    }
}

/// The result is what recording the end of a run gives with some answers of the database.
pub open spec fn end_recorded<D: Database>(
    before: JobStore<D>,
    after: JobStore<D>,
    id: RunId,
    token: ClaimToken,
    finished: UtcTimestamp,
    outcome: OutcomeModel,
    r: Result<Run, StoreError>,
) -> bool {
    exists|answers: RunAnswers| #[trigger]
        finish_outcome(
            before.connection,
            after.connection,
            id,
            token,
            finished,
            outcome,
            answers,
            r,
        )
}

/// The result is what requesting the cancellation of a run gives with the answers.
pub open spec fn cancel_outcome<D: Database>(
    before: Connection<D>,
    after: Connection<D>,
    id: RunId,
    token: ClaimToken,
    answers: RunAnswers,
    r: Result<Run, StoreError>,
) -> bool {
    &&& run_looked_up(before, id, answers)
    &&& match answers.loaded {
        Err(error) => after == before && r == Err::<Run, StoreError>(error),
        Ok(found) => match claim_mismatch(found_run(found), token@) {
            Some(fault) => after == before && (r matches Err(error) && error@ == fault),
            None => if found->0@.state == RunState::CancelRequested || found->0@.state.terminal() {
                after == before && r == Ok::<Run, StoreError>(found->0)
            } else {
                &&& after.ran(
                    before,
                    seq![
                        Statement::RequestCancel {
                            id: id_text(id@),
                            token,
                            state: run_state_name(found->0@.state),
                            answer: answers.changed,
                        },
                    ],
                )
                &&& stored_as(
                    answers.changed,
                    RunModel { state: RunState::CancelRequested, ..found->0@ },
                    r,
                )
            },
        },
    }
}

// ---------------------------------------------------------------------------------------------
// The store
// ---------------------------------------------------------------------------------------------
impl<D: Database> JobStore<D> {
    /// Claims a run for a deadline of a job: no other claim for the deadline succeeds.
    pub fn claim_run(
        &mut self,
        job_id: JobId,
        scheduled_for_utc: UtcTimestamp,
        created_at_utc: UtcTimestamp,
    ) -> (r: Result<Run, StoreError>)
        ensures
            exists|transaction: Transaction<D, Run>, run: RunModel, answers: ClaimAnswers|
                #[trigger] claim_outcome(
                    *old(self),
                    *final(self),
                    job_id,
                    scheduled_for_utc,
                    created_at_utc,
                    transaction,
                    run,
                    answers,
                    r,
                ),
    {
        let ghost start = *self;
        let ghost mut transaction: Transaction<D, Run> = arbitrary();
        let began: Result<(), DatabaseFailure> = self.connection.begin();
        proof {
            transaction.began = began;
            transaction.opened = self.connection;
        }
        match written(began) {
            Ok(_) => {},
            Err(error) => {
                let r: Result<Run, StoreError> = Err(error);
                assert(claim_outcome(
                    start,
                    *self,
                    job_id,
                    scheduled_for_utc,
                    created_at_utc,
                    transaction,
                    arbitrary(),
                    arbitrary(),
                    r,
                ));
                return r;
            },
        }
        let outcome: Result<Run, StoreError> = self.write_claim(
            job_id,
            scheduled_for_utc,
            created_at_utc,
        );
        proof {
            transaction.closed = self.connection;
            transaction.outcome = outcome;
        }
        let r: Result<Run, StoreError> = self.settle(outcome);
        proof {
            let (run, answers) = choose|run: RunModel, answers: ClaimAnswers| #[trigger]
                claim_written(
                    transaction.opened,
                    transaction.closed,
                    job_id,
                    scheduled_for_utc,
                    created_at_utc,
                    run,
                    answers,
                    transaction.outcome,
                );
            transaction.committed = choose|committed: Result<(), DatabaseFailure>|
                {
                    &&& #[trigger] settled(transaction.outcome, committed, r)
                    &&& self.connection.ran(
                        transaction.closed,
                        settlement(transaction.outcome is Ok, committed),
                    )
                };
            assert(claim_outcome(
                start,
                *self,
                job_id,
                scheduled_for_utc,
                created_at_utc,
                transaction,
                run,
                answers,
                r,
            ));
        }
        r
    }

    fn write_claim(
        &mut self,
        job_id: JobId,
        scheduled_for_utc: UtcTimestamp,
        created_at_utc: UtcTimestamp,
    ) -> (r: Result<Run, StoreError>)
        ensures
            exists|run: RunModel, answers: ClaimAnswers| #[trigger]
                claim_written(
                    old(self).connection,
                    final(self).connection,
                    job_id,
                    scheduled_for_utc,
                    created_at_utc,
                    run,
                    answers,
                    r,
                ),
    {
        let ghost start = self.connection;
        let ghost mut answers: ClaimAnswers = arbitrary();
        let ghost mut claimed: RunModel = arbitrary();
        proof {
            claimed.job_id = job_id;
            claimed.scheduled_for_utc = scheduled_for_utc;
        }
        let job_text: String = job_id.to_string();
        let due_text: String = scheduled_for_utc.to_string();
        let duplicate: Result<bool, DatabaseFailure> = self.connection.has_run(
            job_text.as_str(),
            due_text.as_str(),
        );
        proof {
            answers.duplicate = duplicate;
            assert(ran_has_run(
                start.state(),
                id_text(job_id@),
                timestamp_text(scheduled_for_utc@),
                duplicate,
            ));
        }
        match answered(duplicate) {
            Ok(duplicate) => {
                if duplicate {
                    let r: Result<Run, StoreError> = Err(StoreError::DuplicateClaim);
                    assert(claim_written(
                        start,
                        self.connection,
                        job_id,
                        scheduled_for_utc,
                        created_at_utc,
                        claimed,
                        answers,
                        r,
                    ));
                    return r;
                }
            },
            Err(error) => {
                let r: Result<Run, StoreError> = Err(error);
                assert(claim_written(
                    start,
                    self.connection,
                    job_id,
                    scheduled_for_utc,
                    created_at_utc,
                    claimed,
                    answers,
                    r,
                ));
                return r;
            },
        }
        let last: Result<i64, DatabaseFailure> = self.connection.last_sequence(job_text.as_str());
        proof {
            answers.last = last;
            assert(ran_last_sequence(start.state(), id_text(job_id@), last));
        }
        let last: i64 = match answered(last) {
            Ok(last) => last,
            Err(error) => {
                let r: Result<Run, StoreError> = Err(error);
                assert(claim_written(
                    start,
                    self.connection,
                    job_id,
                    scheduled_for_utc,
                    created_at_utc,
                    claimed,
                    answers,
                    r,
                ));
                return r;
            },
        };
        let token: Result<[u8; 32], String> = outside::random_token();
        proof {
            answers.token = token;
            assert(drawn_token(token));
        }
        let run: Run = match claim(job_id, last, scheduled_for_utc, created_at_utc, token) {
            Ok(run) => run,
            Err(error) => {
                let r: Result<Run, StoreError> = Err(error);
                assert(claim_written(
                    start,
                    self.connection,
                    job_id,
                    scheduled_for_utc,
                    created_at_utc,
                    claimed,
                    answers,
                    r,
                ));
                return r;
            },
        };
        proof {
            claimed = run@;
        }
        let row: RunRow = match claim_row(&run) {
            Ok(row) => row,
            Err(error) => {
                let r: Result<Run, StoreError> = Err(error);
                assert(claim_written(
                    start,
                    self.connection,
                    job_id,
                    scheduled_for_utc,
                    created_at_utc,
                    claimed,
                    answers,
                    r,
                ));
                return r;
            },
        };
        let inserted: Result<usize, DatabaseFailure> = self.connection.insert_run(&row);
        proof {
            answers.inserted = inserted;
            assert(stores_run(row, claimed));
        }
        let r: Result<Run, StoreError> = match inserted_run(inserted) {
            Ok(_) => Ok(run),
            Err(error) => Err(error),
        };
        assert(claim_written(
            start,
            self.connection,
            job_id,
            scheduled_for_utc,
            created_at_utc,
            claimed,
            answers,
            r,
        ));
        r
    }

    /// The run with the identifier, if it is stored.
    pub fn load_run(&self, id: RunId) -> (r: Result<Option<Run>, StoreError>)
        ensures
            exists|found: Result<Option<RunRow>, DatabaseFailure>|
                {
                    &&& #[trigger] ran_find_run(self.connection.state(), id_text(id@), found)
                    &&& loaded_run(found, r)
                },
    {
        let found: Result<Option<RunRow>, DatabaseFailure> = self.connection.find_run(
            id.to_string().as_str(),
        );
        assert(ran_find_run(self.connection.state(), id_text(id@), found));
        read_run(found)
    }

    /// Records that the command of a claimed run was started.
    #[allow(clippy::too_many_arguments)]
    pub fn mark_run_running(
        &mut self,
        id: RunId,
        claim_token: ClaimToken,
        started_at_utc: UtcTimestamp,
        monitor_identity: ProcessIdentitySnapshot,
        command_identity: ProcessIdentitySnapshot,
        stdout_path: &str,
        stderr_path: &str,
    ) -> (r: Result<Run, StoreError>)
        ensures
            exists|answers: RunAnswers| #[trigger]
                mark_outcome(
                    old(self).connection,
                    final(self).connection,
                    id,
                    claim_token,
                    (Start {
                        started: started_at_utc,
                        monitor: monitor_identity@,
                        command: command_identity@,
                        stdout_path: stdout_path@,
                        stderr_path: stderr_path@,
                    }),
                    answers,
                    r,
                ),
    {
        let ghost start = Start {
            started: started_at_utc,
            monitor: monitor_identity@,
            command: command_identity@,
            stdout_path: stdout_path@,
            stderr_path: stderr_path@,
        };
        let row: Result<Option<RunRow>, DatabaseFailure> = self.connection.find_run(
            id.to_string().as_str(),
        );
        let ghost start_at = self.connection;
        let ghost mut answers: RunAnswers = arbitrary();
        proof {
            answers.found = row;
            assert(ran_find_run(start_at.state(), id_text(id@), row));
        }
        let loaded: Result<Option<Run>, StoreError> = read_run(row);
        proof {
            answers.loaded = loaded;
        }
        let found: Option<Run> = match loaded {
            Ok(found) => found,
            Err(error) => {
                let r: Result<Run, StoreError> = Err(error);
                assert(mark_outcome(
                    start_at,
                    self.connection,
                    id,
                    claim_token,
                    start,
                    answers,
                    r,
                ));
                return r;
            },
        };
        let columns: StartColumns = start_columns(
            started_at_utc,
            &monitor_identity,
            &command_identity,
            stdout_path,
            stderr_path,
        );
        let running: Run = match mark_found(
            found,
            claim_token,
            started_at_utc,
            monitor_identity,
            command_identity,
            stdout_path,
            stderr_path,
        ) {
            Ok(running) => running,
            Err(error) => {
                let r: Result<Run, StoreError> = Err(error);
                assert(mark_outcome(
                    start_at,
                    self.connection,
                    id,
                    claim_token,
                    start,
                    answers,
                    r,
                ));
                return r;
            },
        };
        let changed: Result<usize, DatabaseFailure> = self.connection.start_run(
            id.to_string().as_str(),
            &claim_token,
            &columns,
        );
        proof {
            answers.changed = changed;
            assert(start.told_by(columns));
        }
        let r: Result<Run, StoreError> = match changed_one(changed) {
            Ok(_) => Ok(running),
            Err(error) => Err(error),
        };
        assert(mark_outcome(
            start_at,
            self.connection,
            id,
            claim_token,
            start,
            answers,
            r,
        ));
        r
    }

    /// Records how a claimed run ended; recording it again changes nothing.
    pub fn record_run_terminal(
        &mut self,
        id: RunId,
        claim_token: ClaimToken,
        finished_at_utc: UtcTimestamp,
        outcome: RunOutcome,
    ) -> (r: Result<Run, StoreError>)
        ensures
            end_recorded(
                *old(self),
                *final(self),
                id,
                claim_token,
                finished_at_utc,
                outcome@,
                r,
            ),
            r matches Ok(run) ==> {
                &&& run@.claim_token == claim_token@
                &&& run@.state.terminal()
                &&& run@.finished_at_utc == Some(finished_at_utc)
                &&& run@.outcome == Some(outcome@)
            },
    {
        let row: Result<Option<RunRow>, DatabaseFailure> = self.connection.find_run(
            id.to_string().as_str(),
        );
        let ghost start_at = self.connection;
        let ghost mut answers: RunAnswers = arbitrary();
        proof {
            answers.found = row;
            assert(ran_find_run(start_at.state(), id_text(id@), row));
        }
        let loaded: Result<Option<Run>, StoreError> = read_run(row);
        proof {
            answers.loaded = loaded;
        }
        let found: Option<Run> = match loaded {
            Ok(found) => found,
            Err(error) => {
                let r: Result<Run, StoreError> = Err(error);
                assert(finish_outcome(
                    start_at,
                    self.connection,
                    id,
                    claim_token,
                    finished_at_utc,
                    outcome@,
                    answers,
                    r,
                ));
                return r;
            },
        };
        let step: Result<RunChange, StoreError> = finish_found(
            found,
            claim_token,
            finished_at_utc,
            &outcome,
        );
        let completed: Run = match step {
            Ok(RunChange::Store(run)) => run,
            Ok(RunChange::Unchanged(run)) => {
                let r: Result<Run, StoreError> = Ok(run);
                assert(finish_outcome(
                    start_at,
                    self.connection,
                    id,
                    claim_token,
                    finished_at_utc,
                    outcome@,
                    answers,
                    r,
                ));
                return r;
            },
            Err(error) => {
                let r: Result<Run, StoreError> = Err(error);
                assert(finish_outcome(
                    start_at,
                    self.connection,
                    id,
                    claim_token,
                    finished_at_utc,
                    outcome@,
                    answers,
                    r,
                ));
                return r;
            },
        };
        let columns: FinishColumns = finish_columns(finished_at_utc, completed.state(), &outcome);
        let changed: Result<usize, DatabaseFailure> = self.connection.finish_run(
            id.to_string().as_str(),
            &claim_token,
            &columns,
        );
        proof {
            answers.changed = changed;
            assert(tells_end(
                columns,
                finished_at_utc,
                state_of_outcome(outcome@),
                outcome@,
            ));
        }
        let r: Result<Run, StoreError> = match changed_one(changed) {
            Ok(_) => Ok(completed),
            Err(error) => Err(error),
        };
        assert(finish_outcome(
            start_at,
            self.connection,
            id,
            claim_token,
            finished_at_utc,
            outcome@,
            answers,
            r,
        ));
        r
    }

    /// Requests the cancellation of a claimed run. One that ended, or whose cancellation was
    /// requested before, is left as it is.
    pub fn request_run_cancellation(&mut self, id: RunId, claim_token: ClaimToken) -> (r: Result<
        Run,
        StoreError,
    >)
        ensures
            exists|answers: RunAnswers| #[trigger]
                cancel_outcome(
                    old(self).connection,
                    final(self).connection,
                    id,
                    claim_token,
                    answers,
                    r,
                ),
            r matches Ok(run) ==> {
                &&& run@.claim_token == claim_token@
                &&& run@.state == RunState::CancelRequested || run@.state.terminal()
            },
    {
        let row: Result<Option<RunRow>, DatabaseFailure> = self.connection.find_run(
            id.to_string().as_str(),
        );
        let ghost start_at = self.connection;
        let ghost mut answers: RunAnswers = arbitrary();
        proof {
            answers.found = row;
            assert(ran_find_run(start_at.state(), id_text(id@), row));
        }
        let loaded: Result<Option<Run>, StoreError> = read_run(row);
        proof {
            answers.loaded = loaded;
        }
        let found: Option<Run> = match loaded {
            Ok(found) => found,
            Err(error) => {
                let r: Result<Run, StoreError> = Err(error);
                assert(cancel_outcome(
                    start_at,
                    self.connection,
                    id,
                    claim_token,
                    answers,
                    r,
                ));
                return r;
            },
        };
        let previous: RunState = match &found {
            Some(run) => run.state(),
            None => RunState::Starting,
        };
        let requested: Run = match cancel_found(found, claim_token) {
            Ok(RunChange::Store(run)) => run,
            Ok(RunChange::Unchanged(run)) => {
                let r: Result<Run, StoreError> = Ok(run);
                assert(cancel_outcome(
                    start_at,
                    self.connection,
                    id,
                    claim_token,
                    answers,
                    r,
                ));
                return r;
            },
            Err(error) => {
                let r: Result<Run, StoreError> = Err(error);
                assert(cancel_outcome(
                    start_at,
                    self.connection,
                    id,
                    claim_token,
                    answers,
                    r,
                ));
                return r;
            },
        };
        let changed: Result<usize, DatabaseFailure> = self.connection.request_cancel(
            id.to_string().as_str(),
            &claim_token,
            encode_run_state(previous),
        );
        proof {
            answers.changed = changed;
        }
        let r: Result<Run, StoreError> = match changed_one(changed) {
            Ok(_) => Ok(requested),
            Err(error) => Err(error),
        };
        assert(cancel_outcome(
            start_at,
            self.connection,
            id,
            claim_token,
            answers,
            r,
        ));
        r
    }
}

/// The result of the store, as cancelling a run reports it.
pub open spec fn answered_cancellation<T>(
    stored: Result<T, StoreError>,
    r: Result<T, CancellationStoreError>,
) -> bool {
    match stored {
        Ok(value) => r == Ok::<T, CancellationStoreError>(value),
        Err(fault) => r matches Err(error) && error.0@ == store_message(fault@),
    }
}

impl<D: Database> CancellationStore for JobStore<D> {
    fn load_for_cancellation(&self, id: RunId) -> (r: Result<Option<Run>, CancellationStoreError>)
        ensures
            exists|
                found: Result<Option<RunRow>, DatabaseFailure>,
                stored: Result<Option<Run>, StoreError>,
            |
                {
                    &&& #[trigger] ran_find_run(self.connection.state(), id_text(id@), found)
                    &&& #[trigger] loaded_run(found, stored)
                    &&& answered_cancellation(stored, r)
                },
    {
        match self.load_run(id) {
            Ok(found) => Ok(found),
            Err(error) => Err(CancellationStoreError(error.to_string())),
        }
    }

    fn commit_cancellation(&mut self, id: RunId, claim_token: ClaimToken) -> (r: Result<
        Run,
        CancellationStoreError,
    >)
        ensures
            exists|answers: RunAnswers, stored: Result<Run, StoreError>|
                {
                    &&& #[trigger] cancel_outcome(
                        old(self).connection,
                        final(self).connection,
                        id,
                        claim_token,
                        answers,
                        stored,
                    )
                    &&& answered_cancellation(stored, r)
                },
    {
        match self.request_run_cancellation(id, claim_token) {
            Ok(run) => Ok(run),
            Err(error) => Err(CancellationStoreError(error.to_string())),
        }
    }
}

} // verus!
