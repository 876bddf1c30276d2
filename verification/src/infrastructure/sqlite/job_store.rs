//! Transactional job persistence.
use vstd::prelude::*;

use super::connection::{lemma_ran_both, lemma_ran_nothing, Connection, Entry, Statement};
use super::database::{
    answered, changed_one, map_write_error, one_row, store_message, write_fault, written,
    DatabaseFailure, StoreError, StoreFault,
};
use super::job_row::{
    decode_job_row, decode_job_rows, decoded_job, decoded_jobs, encode_job, stores_job, to_sql_u64,
    JobRow,
};
use super::names::{
    actor_name, encode_actor, encode_job_state, job_state_name, lemma_names_read_back,
};
use super::statements::{ran_find_job, ran_page_jobs};
use super::tables::{is_time, Database, TransitionRow};
use super::transaction::{
    kept, lemma_transaction_is_all_or_nothing, settled, settlement, Transaction,
};
use crate::application::submit::{SubmissionStore, SubmissionStoreError};
use crate::domain::id::{id_text, JobId};
use crate::domain::job::{job_error_message, job_update_fault, job_updated, Job, JobModel};
use crate::domain::primitives::{Revision, UtcTimestamp};
use crate::domain::schedule::{MissedPolicy, RuntimeTier};
use crate::domain::state::{JobState, RunState};
use crate::domain::transition::{transition_outcome, Transition, TransitionActor};
use crate::outside::timestamp_text;
use crate::text::copy_text;

verus! {

/// The largest page of jobs.
pub const MAX_PAGE_SIZE: usize = 100;

/// The persistent jobs and runs.
pub struct JobStore<D> {
    pub connection: Connection<D>,
}

// ---------------------------------------------------------------------------------------------
// Decisions
// ---------------------------------------------------------------------------------------------
/// The result of inserting a job: a violated constraint means that the job exists.
pub open spec fn job_inserted(
    result: Result<usize, DatabaseFailure>,
    r: Result<(), StoreError>,
) -> bool {
    match result {
        Err(DatabaseFailure::Constraint(_)) => r matches Err(error) && error@
            == StoreFault::AlreadyExists,
        _ => one_row(result, StoreFault::Corrupt("job insert affected no row"@), r),
    }
}

/// The outcome of inserting a job.
pub fn inserted_job(result: Result<usize, DatabaseFailure>) -> (r: Result<(), StoreError>)
    ensures
        job_inserted(result, r),
{
    match result {
        Ok(changed) => {
            if changed == 1 {
                Ok(())
            } else {
                Err(StoreError::Corrupt("job insert affected no row".to_owned()))
            }
        },
        Err(DatabaseFailure::Constraint(_)) => Err(StoreError::AlreadyExists),
        Err(failure) => Err(map_write_error(failure)),
    }
}

/// The text of an identifier where there is one.
pub open spec fn id_given(id: Option<JobId>) -> Option<Seq<char>> {
    match id {
        Some(id) => Some(id_text(id@)),
        None => None,
    }
}

/// The result is what the answer to a query for one job gives.
pub open spec fn loaded_job(
    found: Result<Option<JobRow>, DatabaseFailure>,
    r: Result<Option<Job>, StoreError>,
) -> bool {
    match found {
        Err(failure) => r matches Err(error) && error@ == StoreFault::Sqlite(failure.spec_detail()),
        Ok(None) => r == Ok::<Option<Job>, StoreError>(None),
        Ok(Some(row)) => match r {
            Ok(Some(job)) => decoded_job(row, Ok(job)),
            Ok(None) => false,
            Err(error) => decoded_job(row, Err(error)),
        },
    }
}

/// The result is what asking for a job gives.
pub open spec fn job_loaded<D: Database>(
    store: JobStore<D>,
    id: JobId,
    r: Result<Option<Job>, StoreError>,
) -> bool {
    exists|found: Result<Option<JobRow>, DatabaseFailure>|
        {
            &&& #[trigger] ran_find_job(store.connection.state(), id_text(id@), found)
            &&& loaded_job(found, r)
        }
}

/// The job in the answer to a query for one job.
pub fn read_job(found: Result<Option<JobRow>, DatabaseFailure>) -> (r: Result<
    Option<Job>,
    StoreError,
>)
    ensures
        loaded_job(found, r),
{
    match answered(found) {
        Ok(None) => Ok(None),
        Ok(Some(row)) => match decode_job_row(row) {
            Ok(job) => Ok(Some(job)),
            Err(error) => Err(error),
        },
        Err(error) => Err(error),
    }
}

/// The result is what the answer to a query for jobs gives.
pub open spec fn loaded_jobs(
    found: Result<Vec<JobRow>, DatabaseFailure>,
    r: Result<Vec<Job>, StoreError>,
) -> bool {
    match found {
        Err(failure) => r matches Err(error) && error@ == StoreFault::Sqlite(failure.spec_detail()),
        Ok(rows) => decoded_jobs(rows@, r),
    }
}

/// The jobs in the answer to a query for jobs.
pub fn read_jobs(found: Result<Vec<JobRow>, DatabaseFailure>) -> (r: Result<Vec<Job>, StoreError>)
    ensures
        loaded_jobs(found, r),
{
    match answered(found) {
        Ok(rows) => decode_job_rows(rows),
        Err(error) => Err(error),
    }
}

/// Why the state of a stored job may not be changed, if so.
pub open spec fn change_fault(
    found: Option<JobModel>,
    expected_revision: Revision,
    to: JobState,
    recurring: bool,
    reason: Seq<char>,
    now: UtcTimestamp,
) -> Option<StoreFault> {
    match found {
        None => Some(StoreFault::NotFound),
        Some(job) => if job.revision != expected_revision {
            Some(StoreFault::Conflict)
        } else {
            match job_update_fault(job, to, recurring, reason, now) {
                Some(error) => Some(StoreFault::Domain(job_error_message(error))),
                None => None,
            }
        },
    }
}

/// The job as a model.
pub open spec fn found_model(found: Option<Job>) -> Option<JobModel> {
    match found {
        Some(job) => Some(job@),
        None => None,
    }
}

/// Changes the state of a job that was loaded, if it still has the expected revision.
pub fn change_job(
    found: Option<Job>,
    expected_revision: Revision,
    to: JobState,
    recurring: bool,
    actor: TransitionActor,
    reason: &str,
    now: UtcTimestamp,
) -> (r: Result<(Job, Transition<JobState>), StoreError>)
    ensures
        match change_fault(found_model(found), expected_revision, to, recurring, reason@, now) {
            Some(fault) => r matches Err(error) && error@ == fault,
            None => r matches Ok((job, transition)) && {
                &&& job_updated(found->0@, job@, to, now)
                &&& transition_outcome(found->0@.state, to, actor, reason@, true, Ok(transition))
            },
        },
{
    match found {
        None => Err(StoreError::NotFound),
        Some(loaded) => {
            let mut job: Job = loaded;
            if !job.revision().same(expected_revision) {
                return Err(StoreError::Conflict);
            }
            match job.transition(to, recurring, actor, reason, now) {
                Ok(transition) => Ok((job, transition)),
                Err(error) => Err(StoreError::Domain(error.to_string())),
            }
        },
    }
}

/// A change of the state of a job that was asked for.
pub struct Change {
    pub id: JobId,
    pub expected_revision: Revision,
    pub to: JobState,
    pub recurring: bool,
    pub actor: TransitionActor,
    pub reason: Seq<char>,
    pub now: UtcTimestamp,
}

impl Change {
    /// Why a stored job may not be changed so, if so.
    pub open spec fn fault(self, found: Option<JobModel>) -> Option<StoreFault> {
        change_fault(
            found,
            self.expected_revision,
            self.to,
            self.recurring,
            self.reason,
            self.now,
        )
    }

    /// The job came out of this change of a stored job with the expected revision.
    pub open spec fn gives(self, before: JobModel, after: JobModel) -> bool {
        &&& self.fault(Some(before)) is None
        &&& job_updated(before, after, self.to, self.now)
    }
}

/// What the database answers while the state of a job is changed.
pub struct ChangeAnswers {
    pub found: Result<Option<JobRow>, DatabaseFailure>,
    pub updated: Result<usize, DatabaseFailure>,
    pub recorded: Result<usize, DatabaseFailure>,
}

/// Why writing an allowed change fails with the answers, if so.
pub open spec fn change_refusal(
    expected_revision: Revision,
    answers: ChangeAnswers,
) -> Option<StoreFault> {
    if expected_revision@ + 1 > i64::MAX {
        Some(StoreFault::Corrupt("counter exceeds SQLite i64"@))
    } else {
        match answers.updated {
            Err(failure) => Some(write_fault(failure)),
            Ok(changed) => if changed != 1 {
                Some(StoreFault::Conflict)
            } else {
                match answers.recorded {
                    Err(failure) => Some(write_fault(failure)),
                    Ok(_) => None,
                }
            },
        }
    }
}

/// The row records the change of a job from the state.
pub open spec fn records_change(row: TransitionRow, change: Change, from: JobState) -> bool {
    &&& row.job_id@ == id_text(change.id@)
    &&& row.from_state@ == job_state_name(from)
    &&& row.to_state@ == job_state_name(change.to)
    &&& row.occurred_at_utc@ == timestamp_text(change.now@)
    &&& row.actor@ == actor_name(change.actor)
    &&& row.reason@ == change.reason
    &&& row.revision == change.expected_revision@ + 1
}

/// The statement that gives a job its next revision and its new state.
pub open spec fn change_statement(change: Change, answers: ChangeAnswers) -> Statement {
    Statement::UpdateJobState {
        id: id_text(change.id@),
        expected_revision: change.expected_revision@ as i64,
        expected_state: None,
        revision: (change.expected_revision@ + 1) as i64,
        state: job_state_name(change.to),
        updated_at_utc: timestamp_text(change.now@),
        answer: answers.updated,
    }
}

/// The statements that write an allowed change of a job from the state were run, with the answers:
/// the job gets its next revision, and a change that took hold is then recorded.
pub open spec fn change_run<D: Database>(
    before: Connection<D>,
    after: Connection<D>,
    change: Change,
    from: JobState,
    answers: ChangeAnswers,
) -> bool {
    if answers.updated == Ok::<usize, DatabaseFailure>(1) {
        exists|row: TransitionRow|
            {
                &&& #[trigger] records_change(row, change, from)
                &&& after.ran(
                    before,
                    seq![
                        change_statement(change, answers),
                        Statement::InsertTransition { row, answer: answers.recorded },
                    ],
                )
            }
    } else {
        after.ran(before, seq![change_statement(change, answers)])
    }
}

/// The result is what writing a change of state gives with the answers, where the job was read as
/// `loaded`.
pub open spec fn change_written<D: Database>(
    before: Connection<D>,
    after: Connection<D>,
    change: Change,
    loaded: Result<Option<Job>, StoreError>,
    answers: ChangeAnswers,
    r: Result<Job, StoreError>,
) -> bool {
    &&& ran_find_job(before.state(), id_text(change.id@), answers.found)
    &&& loaded_job(answers.found, loaded)
    &&& match loaded {
        Err(error) => after == before && r == Err::<Job, StoreError>(error),
        Ok(found) => match change.fault(found_model(found)) {
            Some(fault) => after == before && (r matches Err(error) && error@ == fault),
            None => {
                &&& if change.expected_revision@ < i64::MAX {
                    change_run(before, after, change, found->0@.state, answers)
                } else {
                    after == before
                }
                &&& match change_refusal(change.expected_revision, answers) {
                    Some(fault) => r matches Err(error) && error@ == fault,
                    None => r matches Ok(job) && job_updated(
                        found->0@,
                        job@,
                        change.to,
                        change.now,
                    ),
                }
            },
        },
    }
}

/// The result is what changing the state of a job gives: the change and its record are written in a
/// transaction, and hold only once that was made permanent.
pub open spec fn change_outcome<D: Database>(
    before: JobStore<D>,
    after: JobStore<D>,
    change: Change,
    transaction: Transaction<D, Job>,
    loaded: Result<Option<Job>, StoreError>,
    answers: ChangeAnswers,
    r: Result<Job, StoreError>,
) -> bool {
    &&& transaction.carried_out(before.connection, after.connection, r)
    &&& transaction.began is Ok ==> change_written(
        transaction.opened,
        transaction.closed,
        change,
        loaded,
        answers,
        transaction.outcome,
    )
}

/// The result is what changing the state of a job gives with some answers of the database.
pub open spec fn job_changed<D: Database>(
    before: JobStore<D>,
    after: JobStore<D>,
    change: Change,
    r: Result<Job, StoreError>,
) -> bool {
    exists|
        transaction: Transaction<D, Job>,
        loaded: Result<Option<Job>, StoreError>,
        answers: ChangeAnswers,
    | #[trigger]
        change_outcome(before, after, change, transaction, loaded, answers, r)
}

/// A job that was changed had the expected revision, and the rules allowed the change.
pub proof fn lemma_changed_job_was_allowed<D: Database>(
    before: JobStore<D>,
    after: JobStore<D>,
    change: Change,
    r: Result<Job, StoreError>,
)
    requires
        job_changed(before, after, change, r),
    ensures
        r matches Ok(job) ==> exists|earlier: JobModel| #[trigger] change.gives(earlier, job@),
{
    if r is Ok {
        let (transaction, loaded, answers) = choose|
            transaction: Transaction<D, Job>,
            loaded: Result<Option<Job>, StoreError>,
            answers: ChangeAnswers,
        | #[trigger]
            change_outcome(before, after, change, transaction, loaded, answers, r);
        assert(change.gives(loaded->Ok_0->0@, r->Ok_0@));
    }
}

/// Changing the state of a job keeps the change together with its record where it succeeds, and
/// nothing where it fails.
pub proof fn lemma_change_is_all_or_nothing<D: Database>(
    before: JobStore<D>,
    after: JobStore<D>,
    change: Change,
    r: Result<Job, StoreError>,
)
    requires
        job_changed(before, after, change, r),
    ensures
        exists|statements: Seq<Statement>|
            {
                &&& #[trigger] after.connection.ran(before.connection, statements)
                &&& match r {
                    Err(_) => kept(statements, None) == Seq::<Statement>::empty(),
                    Ok(_) => exists|row: TransitionRow, from: JobState, answers: ChangeAnswers|
                        {
                            &&& #[trigger] records_change(row, change, from)
                            &&& kept(statements, None) == seq![
                                #[trigger] change_statement(change, answers),
                                Statement::InsertTransition { row, answer: answers.recorded },
                            ]
                            &&& answers.updated == Ok::<usize, DatabaseFailure>(1)
                            &&& answers.recorded is Ok
                        },
                }
            },
{
    let (transaction, loaded, answers) = choose|
        transaction: Transaction<D, Job>,
        loaded: Result<Option<Job>, StoreError>,
        answers: ChangeAnswers,
    | #[trigger]
        change_outcome(before, after, change, transaction, loaded, answers, r);
    let opened = transaction.opened;
    let closed = transaction.closed;
    let writes = if transaction.began is Err || closed == opened {
        Seq::empty()
    } else if answers.updated == Ok::<usize, DatabaseFailure>(1) {
        let row = choose|row: TransitionRow|
            {
                &&& #[trigger] records_change(row, change, loaded->Ok_0->0@.state)
                &&& closed.ran(
                    opened,
                    seq![
                        change_statement(change, answers),
                        Statement::InsertTransition { row, answer: answers.recorded },
                    ],
                )
            };
        seq![
            change_statement(change, answers),
            Statement::InsertTransition { row, answer: answers.recorded },
        ]
    } else {
        seq![change_statement(change, answers)]
    };
    if closed == opened {
        lemma_ran_nothing(opened);
    }
    lemma_transaction_is_all_or_nothing(
        transaction,
        before.connection,
        after.connection,
        writes,
        r,
    );
}

/// The row for a change of state.
pub fn transition_row(
    id: JobId,
    transition: &Transition<JobState>,
    now: UtcTimestamp,
    revision: i64,
) -> (r: TransitionRow)
    ensures
        r.job_id@ == id_text(id@),
        r.from_state@ == job_state_name(transition.spec_from()),
        r.to_state@ == job_state_name(transition.spec_to()),
        r.occurred_at_utc@ == timestamp_text(now@),
        r.actor@ == actor_name(transition.spec_actor()),
        r.reason@ == transition.spec_reason(),
        r.revision == revision,
{
    TransitionRow {
        job_id: id.to_string(),
        from_state: encode_job_state(transition.from()).to_owned(),
        to_state: encode_job_state(transition.to()).to_owned(),
        occurred_at_utc: now.to_string(),
        actor: encode_actor(transition.actor()).to_owned(),
        reason: copy_text(transition.reason()),
        revision,
    }
}

// ---------------------------------------------------------------------------------------------
// The store
// ---------------------------------------------------------------------------------------------
impl<D: Database> JobStore<D> {
    /// The store in a database.
    pub fn new(database: D) -> (r: JobStore<D>)
        ensures
            r.connection.state() == database,
            r.connection.history() == Seq::<Entry<D>>::empty(),
    {
        JobStore { connection: Connection::new(database) }
    }

    /// The database of the store.
    pub fn database(&self) -> (r: &D)
        ensures
            *r == self.connection.state(),
    {
        self.connection.database()
    }

    /// Ends a transaction: what failed is undone, and what succeeded is made permanent.
    pub(super) fn settle<T>(&mut self, outcome: Result<T, StoreError>) -> (r: Result<T, StoreError>)
        ensures
            exists|committed: Result<(), DatabaseFailure>|
                {
                    &&& #[trigger] settled(outcome, committed, r)
                    &&& final(self).connection.ran(
                        old(self).connection,
                        settlement(outcome is Ok, committed),
                    )
                },
    {
        let ghost before = self.connection;
        match outcome {
            Ok(value) => {
                let committed: Result<(), DatabaseFailure> = self.connection.commit();
                let ghost answer = committed;
                let r: Result<T, StoreError> = match committed {
                    Ok(_) => Ok(value),
                    Err(failure) => {
                        let ghost middle = self.connection;
                        self.connection.rollback();
                        proof {
                            let one = seq![Statement::Commit(answer)];
                            let two = seq![Statement::Rollback];
                            lemma_ran_both(before, middle, self.connection, one, two);
                            assert(one + two =~= settlement(true, answer));
                        }
                        Err(map_write_error(failure))
                    },
                };
                assert(settled(outcome, answer, r));
                r
            },
            Err(error) => {
                self.connection.rollback();
                let r: Result<T, StoreError> = Err(error);
                assert(settled(outcome, Ok(()), r));
                r
            },
        }
    }

    /// Stores a new job.
    pub fn create(&mut self, job: &Job) -> (r: Result<(), StoreError>)
        ensures
            if job@.revision@ > i64::MAX {
                *final(self) == *old(self) && (r matches Err(error) && error@
                    == StoreFault::Corrupt("counter exceeds SQLite i64"@))
            } else {
                exists|row: JobRow, result: Result<usize, DatabaseFailure>|
                    {
                        &&& #[trigger] stores_job(row, job@)
                        &&& #[trigger] job_inserted(result, r)
                        &&& final(self).connection.ran(
                            old(self).connection,
                            seq![(Statement::InsertJob { job: row, answer: result })],
                        )
                    }
            },
    {
        match encode_job(job) {
            Ok(row) => {
                let result: Result<usize, DatabaseFailure> = self.connection.insert_job(&row);
                let ghost answer = result;
                let r: Result<(), StoreError> = inserted_job(result);
                assert(stores_job(row, job@) && job_inserted(answer, r));
                r
            },
            Err(error) => Err(error),
        }
    }

    /// The job with the identifier, if it is stored.
    pub fn load(&self, id: JobId) -> (r: Result<Option<Job>, StoreError>)
        ensures
            job_loaded(*self, id, r),
    {
        let found: Result<Option<JobRow>, DatabaseFailure> = self.connection.find_job(
            id.to_string().as_str(),
        );
        assert(ran_find_job(self.connection.state(), id_text(id@), found));
        read_job(found)
    }

    /// A page of jobs in the order of their identifiers, after the given one where there is one.
    pub fn list(&self, after: Option<JobId>, limit: usize) -> (r: Result<Vec<Job>, StoreError>)
        ensures
            if 1 <= limit <= MAX_PAGE_SIZE {
                exists|found: Result<Vec<JobRow>, DatabaseFailure>|
                    {
                        &&& #[trigger] ran_page_jobs(
                            self.connection.state(),
                            id_given(after),
                            limit as i64,
                            found,
                        )
                        &&& loaded_jobs(found, r)
                    }
            } else {
                r matches Err(error) && error@ == StoreFault::InvalidPageSize
            },
    {
        if limit < 1 || limit > MAX_PAGE_SIZE {
            return Err(StoreError::InvalidPageSize);
        }
        let found: Result<Vec<JobRow>, DatabaseFailure> = match after {
            Some(id) => {
                let text: String = id.to_string();
                self.connection.page_jobs(Some(text.as_str()), limit as i64)
            },
            None => self.connection.page_jobs(None, limit as i64),
        };
        assert(ran_page_jobs(self.connection.state(), id_given(after), limit as i64, found));
        read_jobs(found)
    }

    /// Deletes the job if it has the expected revision.
    pub fn delete(&mut self, id: JobId, expected_revision: Revision) -> (r: Result<(), StoreError>)
        ensures
            if expected_revision@ > i64::MAX {
                *final(self) == *old(self) && (r matches Err(error) && error@
                    == StoreFault::Corrupt("counter exceeds SQLite i64"@))
            } else {
                exists|result: Result<usize, DatabaseFailure>|
                    {
                        &&& #[trigger] one_row(result, StoreFault::Conflict, r)
                        &&& final(self).connection.ran(
                            old(self).connection,
                            seq![(Statement::DeleteJob {
                                id: id_text(id@),
                                revision: expected_revision@ as i64,
                                answer: result,
                            })],
                        )
                    }
            },
    {
        match to_sql_u64(expected_revision.get()) {
            Ok(revision) => {
                let result: Result<usize, DatabaseFailure> = self.connection.delete_job(
                    id.to_string().as_str(),
                    revision,
                );
                let ghost answer = result;
                let r: Result<(), StoreError> = changed_one(result);
                assert(one_row(answer, StoreFault::Conflict, r));
                r
            },
            Err(error) => Err(error),
        }
    }

    /// Changes the state of the job if it has the expected revision, and records the change; either
    /// both are stored or nothing is.
    #[allow(clippy::too_many_arguments)]
    pub fn transition_job(
        &mut self,
        id: JobId,
        expected_revision: Revision,
        to: JobState,
        recurring: bool,
        actor: TransitionActor,
        reason: &str,
        now: UtcTimestamp,
    ) -> (r: Result<Job, StoreError>)
        ensures
            job_changed(
                *old(self),
                *final(self),
                (Change { id, expected_revision, to, recurring, actor, reason: reason@, now }),
                r,
            ),
    {
        let ghost start = *self;
        let ghost change = Change {
            id,
            expected_revision,
            to,
            recurring,
            actor,
            reason: reason@,
            now,
        };
        let ghost mut transaction: Transaction<D, Job> = arbitrary();
        let began: Result<(), DatabaseFailure> = self.connection.begin();
        proof {
            transaction.began = began;
            transaction.opened = self.connection;
        }
        match written(began) {
            Ok(_) => {},
            Err(error) => {
                let r: Result<Job, StoreError> = Err(error);
                assert(change_outcome(
                    start,
                    *self,
                    change,
                    transaction,
                    arbitrary(),
                    arbitrary(),
                    r,
                ));
                return r;
            },
        }
        let outcome: Result<Job, StoreError> = self.write_transition(
            id,
            expected_revision,
            to,
            recurring,
            actor,
            reason,
            now,
        );
        proof {
            transaction.closed = self.connection;
            transaction.outcome = outcome;
        }
        let r: Result<Job, StoreError> = self.settle(outcome);
        proof {
            let (loaded, answers) = choose|
                loaded: Result<Option<Job>, StoreError>,
                answers: ChangeAnswers,
            | #[trigger]
                change_written(
                    transaction.opened,
                    transaction.closed,
                    change,
                    loaded,
                    answers,
                    transaction.outcome,
                );
            transaction.committed = choose|committed: Result<(), DatabaseFailure>|
                {
                    &&& #[trigger] settled(transaction.outcome, committed, r)
                    &&& self.connection.ran(
                        transaction.closed,
                        settlement(transaction.outcome is Ok, committed),
                    )
                };
            assert(change_outcome(start, *self, change, transaction, loaded, answers, r));
        }
        r
    }

    #[allow(clippy::too_many_arguments)]
    fn write_transition(
        &mut self,
        id: JobId,
        expected_revision: Revision,
        to: JobState,
        recurring: bool,
        actor: TransitionActor,
        reason: &str,
        now: UtcTimestamp,
    ) -> (r: Result<Job, StoreError>)
        ensures
            exists|loaded: Result<Option<Job>, StoreError>, answers: ChangeAnswers| #[trigger]
                change_written(
                    old(self).connection,
                    final(self).connection,
                    (Change {
                        id,
                        expected_revision,
                        to,
                        recurring,
                        actor,
                        reason: reason@,
                        now,
                    }),
                    loaded,
                    answers,
                    r,
                ),
    {
        let ghost change = Change {
            id,
            expected_revision,
            to,
            recurring,
            actor,
            reason: reason@,
            now,
        };
        let ghost start = self.connection;
        let ghost mut answers: ChangeAnswers = arbitrary();
        let row: Result<Option<JobRow>, DatabaseFailure> = self.connection.find_job(
            id.to_string().as_str(),
        );
        assert(ran_find_job(start.state(), id_text(id@), row));
        proof {
            answers.found = row;
        }
        let loaded: Result<Option<Job>, StoreError> = read_job(row);
        let ghost reading = loaded;
        let found: Option<Job> = match loaded {
            Ok(found) => found,
            Err(error) => {
                let r: Result<Job, StoreError> = Err(error);
                assert(change_written(start, self.connection, change, reading, answers, r));
                return r;
            },
        };
        let ghost before = found_model(found);
        let (job, transition): (Job, Transition<JobState>) = match change_job(
            found,
            expected_revision,
            to,
            recurring,
            actor,
            reason,
            now,
        ) {
            Ok(pair) => pair,
            Err(error) => {
                let r: Result<Job, StoreError> = Err(error);
                assert(change_written(start, self.connection, change, reading, answers, r));
                return r;
            },
        };
        assert(before == Some(before->0));
        let revision: i64 = match to_sql_u64(job.revision().get()) {
            Ok(revision) => revision,
            Err(error) => {
                let r: Result<Job, StoreError> = Err(error);
                assert(change_written(start, self.connection, change, reading, answers, r));
                return r;
            },
        };
        let expected: i64 = match to_sql_u64(expected_revision.get()) {
            Ok(revision) => revision,
            Err(error) => {
                return Err(error);
            },
        };
        let job_text: String = id.to_string();
        let now_text: String = now.to_string();
        let row: TransitionRow = transition_row(id, &transition, now, revision);
        proof {
            lemma_names_read_back(
                before->0.state,
                RunState::Starting,
                RuntimeTier::Session,
                MissedPolicy::Hold,
            );
            lemma_names_read_back(
                to,
                RunState::Starting,
                RuntimeTier::Session,
                MissedPolicy::Hold,
            );
            assert(is_time(timestamp_text(now@)));
            assert(records_change(row, change, before->0.state));
        }
        let updated: Result<usize, DatabaseFailure> = self.connection.update_job_state(
            job_text.as_str(),
            expected,
            None,
            revision,
            encode_job_state(job.state()),
            now_text.as_str(),
        );
        proof {
            answers.updated = updated;
            assert(self.connection.ran(start, seq![change_statement(change, answers)]));
        }
        match changed_one(updated) {
            Ok(_) => {},
            Err(error) => {
                let r: Result<Job, StoreError> = Err(error);
                assert(change_written(start, self.connection, change, reading, answers, r));
                return r;
            },
        }
        let ghost middle = self.connection;
        let recorded: Result<usize, DatabaseFailure> = self.connection.insert_transition(&row);
        proof {
            let one = seq![change_statement(change, answers)];
            let two = seq![Statement::InsertTransition { row, answer: recorded }];
            answers.recorded = recorded;
            assert(change_statement(change, answers) == one[0]);
            lemma_ran_both(start, middle, self.connection, one, two);
            assert(one + two =~= seq![
                change_statement(change, answers),
                Statement::InsertTransition { row, answer: recorded },
            ]);
        }
        let r: Result<Job, StoreError> = match written(recorded) {
            Ok(_) => Ok(job),
            Err(error) => Err(error),
        };
        assert(change_written(start, self.connection, change, reading, answers, r));
        r
    }
}

impl<D: Database> SubmissionStore for JobStore<D> {
    fn create_job(&mut self, job: &Job) -> (r: Result<(), SubmissionStoreError>)
        ensures
            if job@.revision@ > i64::MAX {
                *final(self) == *old(self) && (r matches Err(error) && error.0@ == store_message(
                    StoreFault::Corrupt("counter exceeds SQLite i64"@),
                ))
            } else {
                exists|
                    row: JobRow,
                    result: Result<usize, DatabaseFailure>,
                    stored: Result<(), StoreError>,
                |
                    {
                        &&& #[trigger] stores_job(row, job@)
                        &&& #[trigger] job_inserted(result, stored)
                        &&& final(self).connection.ran(
                            old(self).connection,
                            seq![(Statement::InsertJob { job: row, answer: result })],
                        )
                        &&& match stored {
                            Ok(_) => r is Ok,
                            Err(fault) => r matches Err(error) && error.0@ == store_message(fault@),
                        }
                    }
            },
    {
        match self.create(job) {
            Ok(_) => Ok(()),
            Err(error) => Err(SubmissionStoreError(error.to_string())),
        }
    }
}

} // verus!
