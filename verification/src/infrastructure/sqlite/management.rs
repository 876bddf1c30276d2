//! Management queries.
use vstd::prelude::*;

use super::connection::{lemma_ran_both, lemma_ran_nothing, Connection, Statement};
use super::database::{
    answered, changed_one, fault_of, store_message, write_fault, written, DatabaseFailure,
    StoreError, StoreFault,
};
use super::job_row::{revision_i64, JobRow};
use super::job_store::{
    id_given, loaded_job, loaded_jobs, read_job, read_jobs, JobStore,
};
use super::names::{
    decode_job_state, encode_job_state, job_state_name, job_state_named, lemma_names_read_back,
};
use super::run_row::RunRow;
use super::run_store::{loaded_run, loaded_runs, read_run, read_runs};
use super::statements::{
    ran_active_runs, ran_completed_runs, ran_find_job, ran_job_state_at, ran_latest_active_run,
    ran_visible_jobs, ran_visible_jobs_by_prefix,
};
use super::tables::{is_time, records_legal_move, Database, TransitionRow};
use super::transaction::{
    kept, lemma_transaction_is_all_or_nothing, settled, settlement, Transaction,
};
use crate::application::list::{ManagementStore, ManagementStoreError};
use crate::domain::execution::optional_text;
use crate::domain::id::{ascii_lower, id_text, JobId};
use crate::domain::job::Job;
use crate::domain::primitives::{primitive_message, PrimitiveError, Revision, UtcTimestamp};
use crate::domain::run::Run;
use crate::domain::schedule::{MissedPolicy, RuntimeTier};
use crate::domain::state::{JobState, RunState};
use crate::outside::timestamp_text;
use crate::text::{byte_len, chars_of, copy_text, utf8_len};

verus! {

/// The largest number of active runs that are inspected.
pub const MAX_ACTIVE_RUNS: usize = 1000;

// ---------------------------------------------------------------------------------------------
// Decisions
// ---------------------------------------------------------------------------------------------
/// A limit as a column value.
pub fn sql_limit(limit: usize) -> (r: Result<i64, StoreError>)
    ensures
        if limit <= i64::MAX {
            r matches Ok(stored) && stored == limit
        } else {
            r matches Err(error) && error@ == StoreFault::Domain("result limit overflow"@)
        },
{
    let wide: u128 = limit as u128;
    if wide <= 0x7fff_ffff_ffff_ffff {
        Ok(limit as i64)
    } else {
        Err(StoreError::Domain("result limit overflow".to_owned()))
    }
}

/// A prefix as it stands in stored identifiers, with its length.
pub fn sql_prefix(prefix: &str) -> (r: Result<(String, i64), StoreError>)
    ensures
        match r {
            Ok((lower, length)) => lower@ == ascii_lower(prefix@) && length
                == utf8_len(lower@),
            Err(error) => error@ == StoreFault::Domain("prefix length overflow"@)
                && utf8_len(ascii_lower(prefix@)) > i64::MAX,
        },
{
    let chars: Vec<char> = chars_of(prefix);
    let mut lower: String = String::new();
    let mut index: usize = 0;
    while index < chars.len()
        invariant
            index <= chars@.len(),
            chars@ == prefix@,
            lower@ == ascii_lower(prefix@).take(index as int),
        decreases chars@.len() - index,
    {
        let c: char = chars[index];
        let code: u32 = c as u32;
        if 65 <= code && code <= 90 {
            lower.push((code as u8 + 32) as char);
        } else {
            lower.push(c);
        }
        assert(lower@ =~= ascii_lower(prefix@).take(index + 1));
        index += 1;
    }
    assert(lower@ =~= ascii_lower(prefix@));
    let length: usize = byte_len(lower.as_str());
    let wide: u128 = length as u128;
    if wide <= 0x7fff_ffff_ffff_ffff {
        Ok((lower, length as i64))
    } else {
        Err(StoreError::Domain("prefix length overflow".to_owned()))
    }
}

/// The active runs that were found, unless they are too many.
pub fn bounded_active_runs(runs: Vec<Run>) -> (r: Result<Vec<Run>, StoreError>)
    ensures
        if runs@.len() > MAX_ACTIVE_RUNS {
            r matches Err(error) && error@ == StoreFault::Corrupt(
                "more than 1000 active runs need inspection"@,
            )
        } else {
            r == Ok::<Vec<Run>, StoreError>(runs)
        },
{
    if runs.len() > MAX_ACTIVE_RUNS {
        return Err(StoreError::Corrupt("more than 1000 active runs need inspection".to_owned()));
    }
    Ok(runs)
}

/// Why a job in a stored state may not be run again, if so.
pub open spec fn requeue_fault(current: Option<Seq<char>>, expected_revision: Revision) -> Option<
    StoreFault,
> {
    match current {
        None => Some(StoreFault::Conflict),
        Some(name) => if !(job_state_named(name) matches Some(state) && state.terminal()) {
            Some(StoreFault::Conflict)
        } else if expected_revision@ == u64::MAX {
            Some(
                StoreFault::Domain(
                    primitive_message(PrimitiveError::Overflow { field: "revision" }),
                ),
            )
        } else if expected_revision@ + 1 > i64::MAX {
            Some(StoreFault::Corrupt("revision exceeds SQLite i64"@))
        } else {
            None
        },
    }
}

/// The stored state and the next revision of a job that is to be run again.
pub fn requeue(current: Option<String>, expected_revision: Revision) -> (r: Result<
    (String, i64),
    StoreError,
>)
    ensures
        match requeue_fault(
            optional_text(current),
            expected_revision,
        ) {
            Some(fault) => r matches Err(error) && error@ == fault,
            None => r matches Ok((state, revision)) && current == Some(state) && revision
                == expected_revision@ + 1,
        },
{
    let state: String = match current {
        Some(state) => state,
        None => {
            return Err(StoreError::Conflict);
        },
    };
    match decode_job_state(state.as_str()) {
        Some(decoded) => {
            if !decoded.is_terminal() {
                return Err(StoreError::Conflict);
            }
        },
        None => {
            return Err(StoreError::Conflict);
        },
    }
    let next: Revision = match expected_revision.next() {
        Ok(next) => next,
        Err(error) => {
            return Err(StoreError::Domain(error.to_string()));
        },
    };
    match revision_i64(next) {
        Ok(revision) => Ok((state, revision)),
        Err(error) => Err(error),
    }
}

/// The row records the explicit rerun of a job that was in the state.
pub open spec fn records_rerun(
    row: TransitionRow,
    job_id: JobId,
    from_state: Seq<char>,
    now: UtcTimestamp,
    revision: int,
) -> bool {
    &&& row.job_id@ == id_text(job_id@)
    &&& row.from_state@ == from_state
    &&& row.to_state@ == "waiting"@
    &&& row.occurred_at_utc@ == timestamp_text(now@)
    &&& row.actor@ == "cli"@
    &&& row.reason@ == "explicit rerun requested"@
    &&& row.revision == revision
}

/// The row that records an explicit rerun.
pub fn rerun_row(job_id: JobId, current: &str, now: UtcTimestamp, revision: i64) -> (r:
    TransitionRow)
    ensures
        records_rerun(r, job_id, current@, now, revision as int),
{
    TransitionRow {
        job_id: job_id.to_string(),
        from_state: copy_text(current),
        to_state: "waiting".to_owned(),
        occurred_at_utc: now.to_string(),
        actor: "cli".to_owned(),
        reason: "explicit rerun requested".to_owned(),
        revision,
    }
}

/// The row of an explicit rerun of a job that is done records a legal move.
proof fn lemma_rerun_is_recorded(row: TransitionRow, current: Seq<char>, now: int)
    requires
        job_state_named(current) matches Some(state) && state.terminal(),
        row.from_state@ == current,
        row.to_state@ == "waiting"@,
        row.occurred_at_utc@ == timestamp_text(now),
        row.reason@ == "explicit rerun requested"@,
        0 < row.revision,
    ensures
        records_legal_move(row),
        is_time(timestamp_text(now)),
{
    lemma_names_read_back(
        JobState::Waiting,
        RunState::Starting,
        RuntimeTier::Session,
        MissedPolicy::Hold,
    );
    reveal_strlit("explicit rerun requested");
}

/// Why hiding a job fails with the answers of the database, if so.
pub open spec fn hide_refusal(
    expected_revision: Revision,
    keep_history: bool,
    deleted: Result<usize, DatabaseFailure>,
    hidden: Result<usize, DatabaseFailure>,
) -> Option<StoreFault> {
    if !keep_history && deleted is Err {
        Some(write_fault(deleted->Err_0))
    } else if expected_revision@ > i64::MAX {
        Some(StoreFault::Corrupt("revision exceeds SQLite i64"@))
    } else {
        match hidden {
            Err(failure) => Some(write_fault(failure)),
            Ok(changed) => if changed == 1 {
                None
            } else {
                Some(StoreFault::Conflict)
            },
        }
    }
}

/// The statement that hides a job.
pub open spec fn hide_statement(
    job_id: JobId,
    expected_revision: Revision,
    hidden: Result<usize, DatabaseFailure>,
) -> Statement {
    Statement::HideFinishedJob {
        id: id_text(job_id@),
        revision: expected_revision@ as i64,
        answer: hidden,
    }
}

/// The statements that hide a job: its runs are deleted first, unless they are to be kept.
pub open spec fn hide_statements(
    job_id: JobId,
    expected_revision: Revision,
    keep_history: bool,
    deleted: Result<usize, DatabaseFailure>,
    hidden: Result<usize, DatabaseFailure>,
) -> Seq<Statement> {
    let delete = Statement::DeleteRunsOf { job_id: id_text(job_id@), answer: deleted };
    let hide_row = hide_statement(job_id, expected_revision, hidden);
    if keep_history {
        if expected_revision@ <= i64::MAX {
            seq![hide_row]
        } else {
            Seq::empty()
        }
    } else if deleted is Ok && expected_revision@ <= i64::MAX {
        seq![delete, hide_row]
    } else {
        seq![delete]
    }
}

/// The statements that hide a job were run, with this result.
pub open spec fn hide_written<D: Database>(
    before: Connection<D>,
    after: Connection<D>,
    job_id: JobId,
    expected_revision: Revision,
    keep_history: bool,
    deleted: Result<usize, DatabaseFailure>,
    hidden: Result<usize, DatabaseFailure>,
    fault: Option<StoreFault>,
) -> bool {
    &&& after.ran(
        before,
        hide_statements(job_id, expected_revision, keep_history, deleted, hidden),
    )
    &&& fault == hide_refusal(expected_revision, keep_history, deleted, hidden)
}

/// What the database answers while a job is hidden, and the job as it was read.
pub struct HideAnswers {
    pub found: Result<Option<JobRow>, DatabaseFailure>,
    pub loaded: Result<Option<Job>, StoreError>,
    pub deleted: Result<usize, DatabaseFailure>,
    pub hidden: Result<usize, DatabaseFailure>,
}

/// The result is what hiding a job gives with the answers: a job that is stored is hidden in a
/// transaction.
pub open spec fn hide_outcome<D: Database>(
    before: JobStore<D>,
    after: JobStore<D>,
    job_id: JobId,
    expected_revision: Revision,
    keep_history: bool,
    transaction: Transaction<D, Job>,
    answers: HideAnswers,
    r: Result<Job, StoreError>,
) -> bool {
    &&& ran_find_job(before.connection.state(), id_text(job_id@), answers.found)
    &&& loaded_job(answers.found, answers.loaded)
    &&& match answers.loaded {
        Err(error) => after == before && r == Err::<Job, StoreError>(error),
        Ok(None) => after == before && (r matches Err(error) && error@ == StoreFault::NotFound),
        Ok(Some(job)) => {
            &&& transaction.carried_out(before.connection, after.connection, r)
            &&& transaction.began is Ok ==> {
                &&& hide_written(
                    transaction.opened,
                    transaction.closed,
                    job_id,
                    expected_revision,
                    keep_history,
                    answers.deleted,
                    answers.hidden,
                    fault_of(transaction.outcome),
                )
                &&& transaction.outcome matches Ok(hidden) ==> hidden == job
            }
        },
    }
}

/// Hiding a job keeps all of its statements where it succeeds, and nothing where it fails: in
/// particular no run is deleted of a job that stays visible.
pub proof fn lemma_hiding_is_all_or_nothing<D: Database>(
    before: JobStore<D>,
    after: JobStore<D>,
    job_id: JobId,
    expected_revision: Revision,
    keep_history: bool,
    transaction: Transaction<D, Job>,
    answers: HideAnswers,
    r: Result<Job, StoreError>,
)
    requires
        hide_outcome(
            before,
            after,
            job_id,
            expected_revision,
            keep_history,
            transaction,
            answers,
            r,
        ),
    ensures
        exists|statements: Seq<Statement>|
            {
                &&& #[trigger] after.connection.ran(before.connection, statements)
                &&& kept(statements, None) == if r is Ok {
                    hide_statements(
                        job_id,
                        expected_revision,
                        keep_history,
                        answers.deleted,
                        answers.hidden,
                    )
                } else {
                    Seq::empty()
                }
            },
{
    if answers.loaded matches Ok(Some(_)) {
        lemma_transaction_is_all_or_nothing(
            transaction,
            before.connection,
            after.connection,
            hide_statements(
                job_id,
                expected_revision,
                keep_history,
                answers.deleted,
                answers.hidden,
            ),
            r,
        );
    } else {
        lemma_ran_nothing(before.connection);
        assert(kept(Seq::empty(), None) == Seq::<Statement>::empty());
    }
}

/// What the database answers while a job is made to wait again.
pub struct RequeueAnswers {
    pub current: Result<Option<String>, DatabaseFailure>,
    pub updated: Result<usize, DatabaseFailure>,
    pub recorded: Result<usize, DatabaseFailure>,
    pub found: Result<Option<JobRow>, DatabaseFailure>,
    pub loaded: Result<Option<Job>, StoreError>,
}

/// Why making a job wait again fails with the answers of the database, if so.
pub open spec fn requeue_refusal(
    expected_revision: Revision,
    answers: RequeueAnswers,
) -> Option<StoreFault> {
    if expected_revision@ > i64::MAX {
        Some(StoreFault::Corrupt("revision exceeds SQLite i64"@))
    } else {
        match answers.current {
            Err(failure) => Some(StoreFault::Sqlite(failure.spec_detail())),
            Ok(current) => match requeue_fault(optional_text(current), expected_revision) {
                Some(fault) => Some(fault),
                None => match answers.updated {
                    Err(failure) => Some(write_fault(failure)),
                    Ok(_) => match answers.recorded {
                        Err(failure) => Some(write_fault(failure)),
                        Ok(_) => None,
                    },
                },
            },
        }
    }
}

/// The statement that makes a job in the state wait again.
pub open spec fn requeue_statement(
    job_id: JobId,
    expected_revision: Revision,
    state: Seq<char>,
    now: UtcTimestamp,
    answers: RequeueAnswers,
) -> Statement {
    Statement::RequeueJob {
        id: id_text(job_id@),
        expected_revision: expected_revision@ as i64,
        from_state: state,
        revision: (expected_revision@ + 1) as i64,
        now: timestamp_text(now@),
        answer: answers.updated,
    }
}

/// The statements that make a job in the state wait again and record that were run.
pub open spec fn requeue_statements_run<D: Database>(
    before: Connection<D>,
    after: Connection<D>,
    job_id: JobId,
    expected_revision: Revision,
    state: Seq<char>,
    now: UtcTimestamp,
    answers: RequeueAnswers,
) -> bool {
    let statement = requeue_statement(job_id, expected_revision, state, now, answers);
    if answers.updated is Ok {
        exists|row: TransitionRow|
            {
                &&& #[trigger] records_rerun(row, job_id, state, now, expected_revision@ + 1)
                &&& after.ran(
                    before,
                    seq![
                        statement,
                        Statement::InsertTransition { row, answer: answers.recorded },
                    ],
                )
            }
    } else {
        after.ran(before, seq![statement])
    }
}

/// A job was made to wait again, with the answers: its state is asked for, and an allowed change is
/// written and recorded.
pub open spec fn requeue_written<D: Database>(
    before: Connection<D>,
    after: Connection<D>,
    job_id: JobId,
    expected_revision: Revision,
    now: UtcTimestamp,
    answers: RequeueAnswers,
    fault: Option<StoreFault>,
) -> bool {
    &&& fault == requeue_refusal(expected_revision, answers)
    &&& if expected_revision@ > i64::MAX {
        after == before
    } else {
        &&& ran_job_state_at(
            before.state(),
            id_text(job_id@),
            expected_revision@ as i64,
            true,
            answers.current,
        )
        &&& if answers.current matches Ok(Some(state)) && requeue_fault(
            Some(state@),
            expected_revision,
        ) is None {
            requeue_statements_run(
                before,
                after,
                job_id,
                expected_revision,
                answers.current->Ok_0->0@,
                now,
                answers,
            )
        } else {
            after == before
        }
    }
}

/// The result is what making a job wait again gives with the answers: the job is read once the
/// transaction was made permanent.
pub open spec fn requeue_outcome<D: Database>(
    before: JobStore<D>,
    after: JobStore<D>,
    job_id: JobId,
    expected_revision: Revision,
    now: UtcTimestamp,
    transaction: Transaction<D, ()>,
    answers: RequeueAnswers,
    done: Result<(), StoreError>,
    r: Result<Job, StoreError>,
) -> bool {
    &&& transaction.carried_out(before.connection, after.connection, done)
    &&& transaction.began is Ok ==> requeue_written(
        transaction.opened,
        transaction.closed,
        job_id,
        expected_revision,
        now,
        answers,
        fault_of(transaction.outcome),
    )
    &&& match done {
        Err(error) => r == Err::<Job, StoreError>(error),
        Ok(_) => {
            &&& ran_find_job(after.connection.state(), id_text(job_id@), answers.found)
            &&& loaded_job(answers.found, answers.loaded)
            &&& match answers.loaded {
                Err(error) => r == Err::<Job, StoreError>(error),
                Ok(None) => r matches Err(error) && error@ == StoreFault::NotFound,
                Ok(Some(job)) => r == Ok::<Job, StoreError>(job),
            }
        },
    }
}

/// Making a job wait again keeps the change together with its record, or nothing.
pub proof fn lemma_requeueing_is_all_or_nothing<D: Database>(
    before: JobStore<D>,
    after: JobStore<D>,
    job_id: JobId,
    expected_revision: Revision,
    now: UtcTimestamp,
    transaction: Transaction<D, ()>,
    answers: RequeueAnswers,
    done: Result<(), StoreError>,
    r: Result<Job, StoreError>,
)
    requires
        requeue_outcome(
            before,
            after,
            job_id,
            expected_revision,
            now,
            transaction,
            answers,
            done,
            r,
        ),
    ensures
        exists|statements: Seq<Statement>|
            {
                &&& #[trigger] after.connection.ran(before.connection, statements)
                &&& match done {
                    Err(_) => kept(statements, None) == Seq::<Statement>::empty(),
                    Ok(_) => exists|row: TransitionRow, state: Seq<char>|
                        {
                            &&& #[trigger] records_rerun(
                                row,
                                job_id,
                                state,
                                now,
                                expected_revision@ + 1,
                            )
                            &&& kept(statements, None) == seq![
                                requeue_statement(job_id, expected_revision, state, now, answers),
                                Statement::InsertTransition { row, answer: answers.recorded },
                            ]
                        },
                }
            },
{
    let opened = transaction.opened;
    let closed = transaction.closed;
    let state = answers.current->Ok_0->0@;
    let statement = requeue_statement(job_id, expected_revision, state, now, answers);
    let row = choose|row: TransitionRow|
        {
            &&& #[trigger] records_rerun(row, job_id, state, now, expected_revision@ + 1)
            &&& closed.ran(
                opened,
                seq![statement, Statement::InsertTransition { row, answer: answers.recorded }],
            )
        };
    let writes = if transaction.began is Err || closed == opened {
        Seq::empty()
    } else if answers.updated is Ok {
        seq![statement, Statement::InsertTransition { row, answer: answers.recorded }]
    } else {
        seq![statement]
    };
    if closed == opened {
        lemma_ran_nothing(opened);
    }
    lemma_transaction_is_all_or_nothing(
        transaction,
        before.connection,
        after.connection,
        writes,
        done,
    );
}

/// The result is what a query for visible jobs gives with the answer.
pub open spec fn listed_jobs<D: Database>(
    store: JobStore<D>,
    state: Option<JobState>,
    after: Option<JobId>,
    limit: usize,
    found: Result<Vec<JobRow>, DatabaseFailure>,
    r: Result<Vec<Job>, StoreError>,
) -> bool {
    if limit > i64::MAX {
        r matches Err(error) && error@ == StoreFault::Domain("result limit overflow"@)
    } else {
        &&& ran_visible_jobs(
            store.connection.state(),
            match state {
                Some(state) => Some(job_state_name(state)),
                None => None,
            },
            match after {
                Some(id) => id_text(id@),
                None => Seq::empty(),
            },
            limit as i64,
            found,
        )
        &&& loaded_jobs(found, r)
    }
}

/// The result is what a query for visible jobs with a prefix gives with the answer.
pub open spec fn jobs_with_prefix<D: Database>(
    store: JobStore<D>,
    prefix: Seq<char>,
    limit: usize,
    found: Result<Vec<JobRow>, DatabaseFailure>,
    r: Result<Vec<Job>, StoreError>,
) -> bool {
    let lower = ascii_lower(prefix);
    if utf8_len(lower) > i64::MAX {
        r matches Err(error) && error@ == StoreFault::Domain("prefix length overflow"@)
    } else if limit > i64::MAX {
        r matches Err(error) && error@ == StoreFault::Domain("result limit overflow"@)
    } else {
        &&& ran_visible_jobs_by_prefix(
            store.connection.state(),
            lower,
            utf8_len(lower) as i64,
            limit as i64,
            found,
        )
        &&& loaded_jobs(found, r)
    }
}

/// The result is what a query for the latest runs that are done gives with the answer.
pub open spec fn listed_runs<D: Database>(
    store: JobStore<D>,
    job_id: Option<JobId>,
    limit: usize,
    found: Result<Vec<RunRow>, DatabaseFailure>,
    r: Result<Vec<Run>, StoreError>,
) -> bool {
    if limit > i64::MAX {
        r matches Err(error) && error@ == StoreFault::Domain("result limit overflow"@)
    } else {
        &&& ran_completed_runs(store.connection.state(), id_given(job_id), limit as i64, found)
        &&& loaded_runs(found, r)
    }
}

/// The result is what a query for the runs that are not done gives with the answer: too many of
/// them are not inspected.
pub open spec fn active_runs_read<D: Database>(
    store: JobStore<D>,
    found: Result<Vec<RunRow>, DatabaseFailure>,
    r: Result<Vec<Run>, StoreError>,
) -> bool {
    &&& ran_active_runs(store.connection.state(), 1001, found)
    &&& exists|read: Result<Vec<Run>, StoreError>|
        {
            &&& #[trigger] loaded_runs(found, read)
            &&& match read {
                Ok(runs) => if runs@.len() > MAX_ACTIVE_RUNS {
                    r matches Err(error) && error@ == StoreFault::Corrupt(
                        "more than 1000 active runs need inspection"@,
                    )
                } else {
                    r == read
                },
                Err(_) => r == read,
            }
        }
}

// ---------------------------------------------------------------------------------------------
// The store
// ---------------------------------------------------------------------------------------------
impl<D: Database> JobStore<D> {
    /// Visible jobs in the order of their identifiers.
    pub fn visible_jobs(&self, state: Option<JobState>, after: Option<JobId>, limit: usize) -> (r:
        Result<Vec<Job>, StoreError>)
        ensures
            exists|found: Result<Vec<JobRow>, DatabaseFailure>| #[trigger]
                listed_jobs(*self, state, after, limit, found, r),
    {
        let after_text: String = match after {
            Some(id) => id.to_string(),
            None => String::new(),
        };
        let state_name: Option<&str> = match state {
            Some(state) => Some(encode_job_state(state)),
            None => None,
        };
        match sql_limit(limit) {
            Ok(bound) => {
                let found: Result<Vec<JobRow>, DatabaseFailure> = self.connection.visible_jobs(
                    state_name,
                    after_text.as_str(),
                    bound,
                );
                let ghost answer = found;
                let r: Result<Vec<Job>, StoreError> = read_jobs(found);
                assert(listed_jobs(*self, state, after, limit, answer, r));
                r
            },
            Err(error) => {
                let r: Result<Vec<Job>, StoreError> = Err(error);
                assert(listed_jobs(*self, state, after, limit, arbitrary(), r));
                r
            },
        }
    }

    /// Visible jobs whose identifiers start with the prefix.
    pub fn jobs_by_prefix(&self, prefix: &str, limit: usize) -> (r: Result<Vec<Job>, StoreError>)
        ensures
            exists|found: Result<Vec<JobRow>, DatabaseFailure>| #[trigger]
                jobs_with_prefix(*self, prefix@, limit, found, r),
    {
        let (lower, length): (String, i64) = match sql_prefix(prefix) {
            Ok(pair) => pair,
            Err(error) => {
                let r: Result<Vec<Job>, StoreError> = Err(error);
                assert(jobs_with_prefix(*self, prefix@, limit, arbitrary(), r));
                return r;
            },
        };
        match sql_limit(limit) {
            Ok(bound) => {
                let found: Result<Vec<JobRow>, DatabaseFailure> =
                    self.connection.visible_jobs_by_prefix(lower.as_str(), length, bound);
                let ghost answer = found;
                let r: Result<Vec<Job>, StoreError> = read_jobs(found);
                assert(jobs_with_prefix(*self, prefix@, limit, answer, r));
                r
            },
            Err(error) => {
                let r: Result<Vec<Job>, StoreError> = Err(error);
                assert(jobs_with_prefix(*self, prefix@, limit, arbitrary(), r));
                r
            },
        }
    }

    /// Runs that are done, of a job or of all jobs, the latest first.
    pub fn recent_runs(&self, job_id: Option<JobId>, limit: usize) -> (r: Result<
        Vec<Run>,
        StoreError,
    >)
        ensures
            exists|found: Result<Vec<RunRow>, DatabaseFailure>| #[trigger]
                listed_runs(*self, job_id, limit, found, r),
    {
        let text: String = match job_id {
            Some(id) => id.to_string(),
            None => String::new(),
        };
        let job: Option<&str> = match job_id {
            Some(_) => Some(text.as_str()),
            None => None,
        };
        match sql_limit(limit) {
            Ok(bound) => {
                let found: Result<Vec<RunRow>, DatabaseFailure> = self.connection.completed_runs(
                    job,
                    bound,
                );
                let ghost answer = found;
                let r: Result<Vec<Run>, StoreError> = read_runs(found);
                assert(listed_runs(*self, job_id, limit, answer, r));
                r
            },
            Err(error) => {
                let r: Result<Vec<Run>, StoreError> = Err(error);
                assert(listed_runs(*self, job_id, limit, arbitrary(), r));
                r
            },
        }
    }

    /// The runs that are not done, unless they are too many.
    pub fn unfinished_runs(&self) -> (r: Result<Vec<Run>, StoreError>)
        ensures
            exists|found: Result<Vec<RunRow>, DatabaseFailure>| #[trigger]
                active_runs_read(*self, found, r),
    {
        let found: Result<Vec<RunRow>, DatabaseFailure> = self.connection.active_runs(1001);
        let ghost answer = found;
        assert(ran_active_runs(self.connection.state(), 1001, answer));
        let read: Result<Vec<Run>, StoreError> = read_runs(found);
        assert(loaded_runs(answer, read));
        let r: Result<Vec<Run>, StoreError> = match read {
            Ok(runs) => bounded_active_runs(runs),
            Err(error) => Err(error),
        };
        assert(active_runs_read(*self, answer, r));
        r
    }

    /// The run of the job with the highest sequence among those that are not done.
    pub fn last_unfinished_run(&self, job_id: JobId) -> (r: Result<Option<Run>, StoreError>)
        ensures
            exists|found: Result<Option<RunRow>, DatabaseFailure>|
                {
                    &&& #[trigger] ran_latest_active_run(
                        self.connection.state(),
                        id_text(job_id@),
                        found,
                    )
                    &&& loaded_run(found, r)
                },
    {
        let found: Result<Option<RunRow>, DatabaseFailure> = self.connection.latest_active_run(
            job_id.to_string().as_str(),
        );
        assert(ran_latest_active_run(self.connection.state(), id_text(job_id@), found));
        read_run(found)
    }

    /// Hides a job that is done if it has the expected revision, and deletes its runs unless they
    /// are to be kept; either both are stored or nothing is.
    pub fn conceal_job(&mut self, job_id: JobId, expected_revision: Revision, keep_history: bool) -> (r:
        Result<Job, StoreError>)
        ensures
            exists|transaction: Transaction<D, Job>, answers: HideAnswers| #[trigger]
                hide_outcome(
                    *old(self),
                    *final(self),
                    job_id,
                    expected_revision,
                    keep_history,
                    transaction,
                    answers,
                    r,
                ),
    {
        let ghost start = *self;
        let ghost mut transaction: Transaction<D, Job> = arbitrary();
        let ghost mut answers: HideAnswers = arbitrary();
        let row: Result<Option<JobRow>, DatabaseFailure> = self.connection.find_job(
            job_id.to_string().as_str(),
        );
        proof {
            answers.found = row;
            assert(ran_find_job(start.connection.state(), id_text(job_id@), row));
        }
        let loaded: Result<Option<Job>, StoreError> = read_job(row);
        proof {
            answers.loaded = loaded;
        }
        let job: Job = match loaded {
            Ok(Some(job)) => job,
            Ok(None) => {
                let r: Result<Job, StoreError> = Err(StoreError::NotFound);
                assert(hide_outcome(
                    start,
                    *self,
                    job_id,
                    expected_revision,
                    keep_history,
                    transaction,
                    answers,
                    r,
                ));
                return r;
            },
            Err(error) => {
                let r: Result<Job, StoreError> = Err(error);
                assert(hide_outcome(
                    start,
                    *self,
                    job_id,
                    expected_revision,
                    keep_history,
                    transaction,
                    answers,
                    r,
                ));
                return r;
            },
        };
        let began: Result<(), DatabaseFailure> = self.connection.begin();
        proof {
            transaction.began = began;
            transaction.opened = self.connection;
        }
        match written(began) {
            Ok(_) => {},
            Err(error) => {
                let r: Result<Job, StoreError> = Err(error);
                assert(hide_outcome(
                    start,
                    *self,
                    job_id,
                    expected_revision,
                    keep_history,
                    transaction,
                    answers,
                    r,
                ));
                return r;
            },
        }
        let done: Result<(), StoreError> = self.write_hidden(
            job_id,
            expected_revision,
            keep_history,
        );
        let ghost fault = fault_of(done);
        let outcome: Result<Job, StoreError> = match done {
            Ok(_) => Ok(job),
            Err(error) => Err(error),
        };
        proof {
            transaction.closed = self.connection;
            transaction.outcome = outcome;
            let (deleted, hidden) = choose|
                deleted: Result<usize, DatabaseFailure>,
                hidden: Result<usize, DatabaseFailure>,
            | #[trigger]
                hide_written(
                    transaction.opened,
                    transaction.closed,
                    job_id,
                    expected_revision,
                    keep_history,
                    deleted,
                    hidden,
                    fault,
                );
            answers.deleted = deleted;
            answers.hidden = hidden;
        }
        let r: Result<Job, StoreError> = self.settle(outcome);
        proof {
            transaction.committed = choose|committed: Result<(), DatabaseFailure>|
                {
                    &&& #[trigger] settled(transaction.outcome, committed, r)
                    &&& self.connection.ran(
                        transaction.closed,
                        settlement(transaction.outcome is Ok, committed),
                    )
                };
            assert(hide_outcome(
                start,
                *self,
                job_id,
                expected_revision,
                keep_history,
                transaction,
                answers,
                r,
            ));
        }
        r
    }

    fn write_hidden(&mut self, job_id: JobId, expected_revision: Revision, keep_history: bool) -> (r:
        Result<(), StoreError>)
        ensures
            exists|deleted: Result<usize, DatabaseFailure>, hidden: Result<usize, DatabaseFailure>|
                #[trigger] hide_written(
                    old(self).connection,
                    final(self).connection,
                    job_id,
                    expected_revision,
                    keep_history,
                    deleted,
                    hidden,
                    fault_of(r),
                ),
    {
        let ghost start = self.connection;
        let text: String = job_id.to_string();
        let ghost mut removed: Result<usize, DatabaseFailure> = arbitrary();
        if !keep_history {
            let deleted: Result<usize, DatabaseFailure> = self.connection.delete_runs_of(
                text.as_str(),
            );
            proof {
                removed = deleted;
            }
            match written(deleted) {
                Ok(_) => {},
                Err(error) => {
                    let r: Result<(), StoreError> = Err(error);
                    assert(hide_written(
                        start,
                        self.connection,
                        job_id,
                        expected_revision,
                        keep_history,
                        removed,
                        arbitrary(),
                        fault_of(r),
                    ));
                    return r;
                },
            }
        } else {
            proof {
                lemma_ran_nothing(start);
            }
        }
        let ghost middle = self.connection;
        match revision_i64(expected_revision) {
            Ok(revision) => {
                let hidden: Result<usize, DatabaseFailure> = self.connection.hide_finished_job(
                    text.as_str(),
                    revision,
                );
                let ghost answer = hidden;
                let r: Result<(), StoreError> = changed_one(hidden);
                proof {
                    let two = seq![hide_statement(job_id, expected_revision, answer)];
                    let one = if keep_history {
                        Seq::empty()
                    } else {
                        seq![Statement::DeleteRunsOf { job_id: id_text(job_id@), answer: removed }]
                    };
                    lemma_ran_both(start, middle, self.connection, one, two);
                    assert(one + two =~= hide_statements(
                        job_id,
                        expected_revision,
                        keep_history,
                        removed,
                        answer,
                    ));
                    assert(hide_written(
                        start,
                        self.connection,
                        job_id,
                        expected_revision,
                        keep_history,
                        removed,
                        answer,
                        fault_of(r),
                    ));
                }
                r
            },
            Err(error) => {
                let r: Result<(), StoreError> = Err(error);
                assert(hide_written(
                    start,
                    self.connection,
                    job_id,
                    expected_revision,
                    keep_history,
                    removed,
                    arbitrary(),
                    fault_of(r),
                ));
                r
            },
        }
    }

    /// Makes a job that is done wait again, due now, if it has the expected revision, and records
    /// the change; either both are stored or nothing is.
    pub fn requeue_job(&mut self, job_id: JobId, expected_revision: Revision, now: UtcTimestamp) -> (r:
        Result<Job, StoreError>)
        ensures
            exists|
                transaction: Transaction<D, ()>,
                answers: RequeueAnswers,
                done: Result<(), StoreError>,
            | #[trigger]
                requeue_outcome(
                    *old(self),
                    *final(self),
                    job_id,
                    expected_revision,
                    now,
                    transaction,
                    answers,
                    done,
                    r,
                ),
    {
        let ghost start = *self;
        let ghost mut transaction: Transaction<D, ()> = arbitrary();
        let ghost mut answers: RequeueAnswers = arbitrary();
        let began: Result<(), DatabaseFailure> = self.connection.begin();
        proof {
            transaction.began = began;
            transaction.opened = self.connection;
        }
        match written(began) {
            Ok(_) => {},
            Err(error) => {
                let ghost done = Err::<(), StoreError>(error);
                let r: Result<Job, StoreError> = Err(error);
                assert(requeue_outcome(
                    start,
                    *self,
                    job_id,
                    expected_revision,
                    now,
                    transaction,
                    answers,
                    done,
                    r,
                ));
                return r;
            },
        }
        let outcome: Result<(), StoreError> = self.write_requeued(job_id, expected_revision, now);
        proof {
            transaction.closed = self.connection;
            transaction.outcome = outcome;
            answers = choose|found: RequeueAnswers| #[trigger]
                requeue_written(
                    transaction.opened,
                    transaction.closed,
                    job_id,
                    expected_revision,
                    now,
                    found,
                    fault_of(outcome),
                );
        }
        let settlement_result: Result<(), StoreError> = self.settle(outcome);
        let ghost done = settlement_result;
        proof {
            transaction.committed = choose|committed: Result<(), DatabaseFailure>|
                {
                    &&& #[trigger] settled(transaction.outcome, committed, done)
                    &&& self.connection.ran(
                        transaction.closed,
                        settlement(transaction.outcome is Ok, committed),
                    )
                };
        }
        match settlement_result {
            Ok(_) => {},
            Err(error) => {
                let r: Result<Job, StoreError> = Err(error);
                assert(requeue_outcome(
                    start,
                    *self,
                    job_id,
                    expected_revision,
                    now,
                    transaction,
                    answers,
                    done,
                    r,
                ));
                return r;
            },
        }
        let row: Result<Option<JobRow>, DatabaseFailure> = self.connection.find_job(
            job_id.to_string().as_str(),
        );
        let ghost earlier = answers;
        proof {
            answers.found = row;
        }
        let loaded: Result<Option<Job>, StoreError> = read_job(row);
        proof {
            answers.loaded = loaded;
            assert(requeue_refusal(expected_revision, answers) == requeue_refusal(
                expected_revision,
                earlier,
            ));
            assert(forall|state: Seq<char>|
                requeue_statement(job_id, expected_revision, state, now, answers)
                    == #[trigger] requeue_statement(
                    job_id,
                    expected_revision,
                    state,
                    now,
                    earlier,
                ));
            assert(requeue_written(
                transaction.opened,
                transaction.closed,
                job_id,
                expected_revision,
                now,
                answers,
                fault_of(transaction.outcome),
            ));
        }
        let r: Result<Job, StoreError> = match loaded {
            Ok(Some(job)) => Ok(job),
            Ok(None) => Err(StoreError::NotFound),
            Err(error) => Err(error),
        };
        assert(requeue_outcome(
            start,
            *self,
            job_id,
            expected_revision,
            now,
            transaction,
            answers,
            done,
            r,
        ));
        r
    }

    fn write_requeued(&mut self, job_id: JobId, expected_revision: Revision, now: UtcTimestamp) -> (r:
        Result<(), StoreError>)
        ensures
            exists|answers: RequeueAnswers| #[trigger]
                requeue_written(
                    old(self).connection,
                    final(self).connection,
                    job_id,
                    expected_revision,
                    now,
                    answers,
                    fault_of(r),
                ),
    {
        let ghost start = self.connection;
        let ghost mut answers: RequeueAnswers = arbitrary();
        let text: String = job_id.to_string();
        let expected: i64 = match revision_i64(expected_revision) {
            Ok(expected) => expected,
            Err(error) => {
                let r: Result<(), StoreError> = Err(error);
                assert(requeue_written(
                    start,
                    self.connection,
                    job_id,
                    expected_revision,
                    now,
                    answers,
                    fault_of(r),
                ));
                return r;
            },
        };
        let current: Result<Option<String>, DatabaseFailure> = self.connection.job_state_at(
            text.as_str(),
            expected,
            true,
        );
        proof {
            answers.current = current;
        }
        let current: Option<String> = match answered(current) {
            Ok(current) => current,
            Err(error) => {
                let r: Result<(), StoreError> = Err(error);
                assert(requeue_written(
                    start,
                    self.connection,
                    job_id,
                    expected_revision,
                    now,
                    answers,
                    fault_of(r),
                ));
                return r;
            },
        };
        let (state, revision): (String, i64) = match requeue(current, expected_revision) {
            Ok(pair) => pair,
            Err(error) => {
                let r: Result<(), StoreError> = Err(error);
                assert(requeue_written(
                    start,
                    self.connection,
                    job_id,
                    expected_revision,
                    now,
                    answers,
                    fault_of(r),
                ));
                return r;
            },
        };
        let now_text: String = now.to_string();
        let row: TransitionRow = rerun_row(job_id, state.as_str(), now, revision);
        proof {
            lemma_rerun_is_recorded(row, state@, now@);
        }
        let updated: Result<usize, DatabaseFailure> = self.connection.requeue_job(
            text.as_str(),
            expected,
            state.as_str(),
            revision,
            now_text.as_str(),
        );
        proof {
            answers.updated = updated;
            assert(self.connection.ran(
                start,
                seq![requeue_statement(job_id, expected_revision, state@, now, answers)],
            ));
        }
        match written(updated) {
            Ok(_) => {},
            Err(error) => {
                let r: Result<(), StoreError> = Err(error);
                assert(requeue_written(
                    start,
                    self.connection,
                    job_id,
                    expected_revision,
                    now,
                    answers,
                    fault_of(r),
                ));
                return r;
            },
        }
        let ghost middle = self.connection;
        let recorded: Result<usize, DatabaseFailure> = self.connection.insert_transition(&row);
        proof {
            let one = seq![requeue_statement(job_id, expected_revision, state@, now, answers)];
            let two = seq![Statement::InsertTransition { row, answer: recorded }];
            answers.recorded = recorded;
            assert(requeue_statement(job_id, expected_revision, state@, now, answers) == one[0]);
            lemma_ran_both(start, middle, self.connection, one, two);
            assert(one + two =~= seq![
                one[0],
                Statement::InsertTransition { row, answer: recorded },
            ]);
            assert(records_rerun(row, job_id, state@, now, expected_revision@ + 1));
        }
        let r: Result<(), StoreError> = match written(recorded) {
            Ok(_) => Ok(()),
            Err(error) => Err(error),
        };
        assert(requeue_written(
            start,
            self.connection,
            job_id,
            expected_revision,
            now,
            answers,
            fault_of(r),
        ));
        r
    }
}

/// A store error as an error of the management queries.
pub fn management_error(error: &StoreError) -> (r: ManagementStoreError)
    ensures
        r.0@ == store_message(error@),
{
    ManagementStoreError(error.to_string())
}

/// The result of the store, as the management queries report it.
pub open spec fn managed<T>(
    stored: Result<T, StoreError>,
    r: Result<T, ManagementStoreError>,
) -> bool {
    match stored {
        Ok(value) => r == Ok::<T, ManagementStoreError>(value),
        Err(fault) => r matches Err(error) && error.0@ == store_message(fault@),
    }
}

/// The result is what asking for the runs that are not done gives.
pub open spec fn active_runs_found<D: Database>(
    store: JobStore<D>,
    r: Result<Vec<Run>, ManagementStoreError>,
) -> bool {
    exists|found: Result<Vec<RunRow>, DatabaseFailure>, stored: Result<Vec<Run>, StoreError>|
        #[trigger] active_runs_read(store, found, stored) && managed(stored, r)
}

/// The result is what asking for the latest run of a job that is not done gives.
pub open spec fn active_run_found<D: Database>(
    store: JobStore<D>,
    job_id: JobId,
    r: Result<Option<Run>, ManagementStoreError>,
) -> bool {
    exists|found: Result<Option<RunRow>, DatabaseFailure>, stored: Result<Option<Run>, StoreError>|
        {
            &&& #[trigger] ran_latest_active_run(
                store.connection.state(),
                id_text(job_id@),
                found,
            )
            &&& #[trigger] loaded_run(found, stored)
            &&& managed(stored, r)
        }
}

impl<D: Database> ManagementStore for JobStore<D> {
    fn list_jobs(&self, state: Option<JobState>, after: Option<JobId>, limit: usize) -> (r: Result<
        Vec<Job>,
        ManagementStoreError,
    >)
        ensures
            exists|
                found: Result<Vec<JobRow>, DatabaseFailure>,
                stored: Result<Vec<Job>, StoreError>,
            |
                #[trigger] listed_jobs(*self, state, after, limit, found, stored) && managed(
                    stored,
                    r,
                ),
    {
        match self.visible_jobs(state, after, limit) {
            Ok(jobs) => Ok(jobs),
            Err(error) => Err(management_error(&error)),
        }
    }

    fn find_jobs_by_prefix(&self, prefix: &str, limit: usize) -> (r: Result<
        Vec<Job>,
        ManagementStoreError,
    >)
        ensures
            exists|
                found: Result<Vec<JobRow>, DatabaseFailure>,
                stored: Result<Vec<Job>, StoreError>,
            |
                #[trigger] jobs_with_prefix(*self, prefix@, limit, found, stored) && managed(
                    stored,
                    r,
                ),
    {
        match self.jobs_by_prefix(prefix, limit) {
            Ok(jobs) => Ok(jobs),
            Err(error) => Err(management_error(&error)),
        }
    }

    fn list_runs(&self, job_id: Option<JobId>, limit: usize) -> (r: Result<
        Vec<Run>,
        ManagementStoreError,
    >)
        ensures
            exists|
                found: Result<Vec<RunRow>, DatabaseFailure>,
                stored: Result<Vec<Run>, StoreError>,
            |
                #[trigger] listed_runs(*self, job_id, limit, found, stored) && managed(stored, r),
    {
        match self.recent_runs(job_id, limit) {
            Ok(runs) => Ok(runs),
            Err(error) => Err(management_error(&error)),
        }
    }

    fn active_runs(&self) -> (r: Result<Vec<Run>, ManagementStoreError>)
        ensures
            active_runs_found(*self, r),
    {
        match self.unfinished_runs() {
            Ok(runs) => Ok(runs),
            Err(error) => Err(management_error(&error)),
        }
    }

    fn latest_active_run(&self, job_id: JobId) -> (r: Result<Option<Run>, ManagementStoreError>)
        ensures
            active_run_found(*self, job_id, r),
    {
        match self.last_unfinished_run(job_id) {
            Ok(run) => Ok(run),
            Err(error) => Err(management_error(&error)),
        }
    }

    fn hide_job(&mut self, job_id: JobId, expected_revision: Revision, keep_history: bool) -> (r:
        Result<Job, ManagementStoreError>)
        ensures
            exists|
                transaction: Transaction<D, Job>,
                answers: HideAnswers,
                stored: Result<Job, StoreError>,
            |
                {
                    &&& #[trigger] hide_outcome(
                        *old(self),
                        *final(self),
                        job_id,
                        expected_revision,
                        keep_history,
                        transaction,
                        answers,
                        stored,
                    )
                    &&& managed(stored, r)
                },
    {
        match self.conceal_job(job_id, expected_revision, keep_history) {
            Ok(job) => Ok(job),
            Err(error) => Err(management_error(&error)),
        }
    }

    fn prepare_rerun(
        &mut self,
        job_id: JobId,
        expected_revision: Revision,
        now: UtcTimestamp,
    ) -> (r: Result<Job, ManagementStoreError>)
        ensures
            exists|
                transaction: Transaction<D, ()>,
                answers: RequeueAnswers,
                done: Result<(), StoreError>,
                stored: Result<Job, StoreError>,
            |
                {
                    &&& #[trigger] requeue_outcome(
                        *old(self),
                        *final(self),
                        job_id,
                        expected_revision,
                        now,
                        transaction,
                        answers,
                        done,
                        stored,
                    )
                    &&& managed(stored, r)
                },
    {
        match self.requeue_job(job_id, expected_revision, now) {
            Ok(job) => Ok(job),
            Err(error) => Err(management_error(&error)),
        }
    }
}

} // verus!
