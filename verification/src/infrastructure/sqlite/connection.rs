//! A database with the history of what it was asked to change.
use vstd::prelude::*;

use super::database::DatabaseFailure;
use super::job_row::JobRow;
use super::names::{job_state_named, run_state_named};
use super::run_row::{FinishColumns, RunRow, StartColumns};
use super::statements::{
    ran_active_runs, ran_completed_runs, ran_find_job, ran_find_run, ran_has_run, ran_job_state_at, ran_last_sequence,
    ran_latest_active_run, ran_latest_run, ran_page_jobs, ran_runs_by_prefix,
    ran_truncation, ran_unfinished_jobs, ran_visible_jobs, ran_visible_jobs_by_prefix, text_given,
};
use super::tables::{
    ends_run, holds_claim, holds_job, is_time, legal_move, next_in_column, records_legal_move,
    starts_run, Database, TransitionRow,
};
use crate::domain::run::ClaimToken;
use crate::domain::state::RunState;

verus! {

/// A statement that may change a database, with what was handed over and the answer.
pub enum Statement {
    Begin(Result<(), DatabaseFailure>),
    Commit(Result<(), DatabaseFailure>),
    Rollback,
    InsertJob { job: JobRow, answer: Result<usize, DatabaseFailure> },
    DeleteJob { id: Seq<char>, revision: i64, answer: Result<usize, DatabaseFailure> },
    UpdateJobState {
        id: Seq<char>,
        expected_revision: i64,
        expected_state: Option<Seq<char>>,
        revision: i64,
        state: Seq<char>,
        updated_at_utc: Seq<char>,
        answer: Result<usize, DatabaseFailure>,
    },
    PostponeJob {
        id: Seq<char>,
        expected_revision: i64,
        revision: i64,
        updated_at_utc: Seq<char>,
        next_due_utc: Seq<char>,
        answer: Result<usize, DatabaseFailure>,
    },
    RequeueJob {
        id: Seq<char>,
        expected_revision: i64,
        from_state: Seq<char>,
        revision: i64,
        now: Seq<char>,
        answer: Result<usize, DatabaseFailure>,
    },
    HideFinishedJob { id: Seq<char>, revision: i64, answer: Result<usize, DatabaseFailure> },
    InsertTransition { row: TransitionRow, answer: Result<usize, DatabaseFailure> },
    InsertRun { run: RunRow, answer: Result<usize, DatabaseFailure> },
    StartRun {
        id: Seq<char>,
        token: ClaimToken,
        columns: StartColumns,
        answer: Result<usize, DatabaseFailure>,
    },
    FinishRun {
        id: Seq<char>,
        token: ClaimToken,
        ending: FinishColumns,
        answer: Result<usize, DatabaseFailure>,
    },
    RequestCancel {
        id: Seq<char>,
        token: ClaimToken,
        state: Seq<char>,
        answer: Result<usize, DatabaseFailure>,
    },
    DeleteRunsOf { job_id: Seq<char>, answer: Result<usize, DatabaseFailure> },
    SetTruncation {
        run_id: Seq<char>,
        token: ClaimToken,
        stdout_truncated: bool,
        stderr_truncated: bool,
        answer: Result<usize, DatabaseFailure>,
    },
    DeleteOldRuns { before: Seq<char>, answer: Result<usize, DatabaseFailure> },
    DeleteOldTransitions { before: Seq<char>, answer: Result<usize, DatabaseFailure> },
    DeleteOldJobs { before: Seq<char>, answer: Result<usize, DatabaseFailure> },
}

impl Statement {
    /// The statement starts or ends a transaction.
    pub open spec fn is_control(self) -> bool {
        self is Begin || self is Commit || self is Rollback
    }
}

/// A statement between two states of a database.
pub struct Entry<D> {
    pub before: D,
    pub statement: Statement,
    pub after: D,
}

/// Each entry starts where the one before ended, from the first state to the last.
pub open spec fn chained<D>(entries: Seq<Entry<D>>, first: D, last: D) -> bool {
    &&& entries.len() == 0 ==> first == last
    &&& entries.len() > 0 ==> entries[0].before == first && entries.last().after == last
    &&& forall|i: int|
        0 < i < entries.len() ==> (#[trigger] entries[i]).before == entries[i - 1].after
}

/// The statements of entries.
pub open spec fn statements_of<D>(entries: Seq<Entry<D>>) -> Seq<Statement> {
    entries.map_values(|entry: Entry<D>| entry.statement)
}

/// A database, which is only changed by the methods below. Every statement that may change it is
/// noted with the states before and after.
pub struct Connection<D> {
    database: D,
    history: Ghost<Seq<Entry<D>>>,
}

impl<D: Database> Connection<D> {
    /// The database as it is now.
    pub closed spec fn state(self) -> D {
        self.database
    }

    /// What was asked so far.
    pub closed spec fn history(self) -> Seq<Entry<D>> {
        self.history@
    }

    /// What was asked since an earlier connection.
    pub open spec fn since(self, before: Connection<D>) -> Seq<Entry<D>> {
        self.history().skip(before.history().len() as int)
    }

    /// Exactly these statements were run since an earlier connection, each on what the one before
    /// left.
    pub open spec fn ran(self, before: Connection<D>, statements: Seq<Statement>) -> bool {
        &&& before.history().len() <= self.history().len()
        &&& self.history().take(before.history().len() as int) == before.history()
        &&& statements_of(self.since(before)) == statements
        &&& chained(self.since(before), before.state(), self.state())
    }

    /// A connection to a database.
    pub fn new(database: D) -> (r: Connection<D>)
        ensures
            r.state() == database,
            r.history() == Seq::<Entry<D>>::empty(),
    {
        Connection { database, history: Ghost(Seq::empty()) }
    }

    /// The database.
    pub fn database(&self) -> (r: &D)
        ensures
            *r == self.state(),
    {
        &self.database
    }

    /// Starts a transaction that may write.
    pub fn begin(&mut self) -> (r: Result<(), DatabaseFailure>)
        ensures
            final(self).ran(*old(self), seq![Statement::Begin(r)]),
            exists|database: &mut D|
                {
                    &&& #[trigger] call_ensures(D::begin, (database,), r)
                    &&& *database == old(self).state()
                    &&& *final(database) == final(self).state()
                },
    {
        let ghost start = *self;
        let r: Result<(), DatabaseFailure> = self.database.begin();
        let ghost statement = Statement::Begin(r);
        self.history = Ghost(noted(start, statement, self.database));
        proof {
            lemma_ran_one(start, *self, statement);
        }
        r
    }

    /// Makes the writes of the transaction permanent.
    pub fn commit(&mut self) -> (r: Result<(), DatabaseFailure>)
        ensures
            final(self).ran(*old(self), seq![Statement::Commit(r)]),
            exists|database: &mut D|
                {
                    &&& #[trigger] call_ensures(D::commit, (database,), r)
                    &&& *database == old(self).state()
                    &&& *final(database) == final(self).state()
                },
    {
        let ghost start = *self;
        let r: Result<(), DatabaseFailure> = self.database.commit();
        let ghost statement = Statement::Commit(r);
        self.history = Ghost(noted(start, statement, self.database));
        proof {
            lemma_ran_one(start, *self, statement);
        }
        r
    }

    /// Undoes the writes of the transaction.
    pub fn rollback(&mut self)
        ensures
            final(self).ran(*old(self), seq![Statement::Rollback]),
            exists|database: &mut D|
                {
                    &&& #[trigger] call_ensures(D::rollback, (database,), ())
                    &&& *database == old(self).state()
                    &&& *final(database) == final(self).state()
                },
    {
        let ghost start = *self;
        self.database.rollback();
        let ghost statement = Statement::Rollback;
        self.history = Ghost(noted(start, statement, self.database));
        proof {
            lemma_ran_one(start, *self, statement);
        }
    }

    /// Inserts a job.
    pub fn insert_job(&mut self, row: &JobRow) -> (r: Result<usize, DatabaseFailure>)
        requires
            holds_job(*row),
        ensures
            final(self).ran(*old(self), seq![(Statement::InsertJob { job: *row, answer: r })]),
            exists|database: &mut D|
                {
                    &&& #[trigger] call_ensures(D::insert_job, (database, row), r)
                    &&& *database == old(self).state()
                    &&& *final(database) == final(self).state()
                },
    {
        let ghost start = *self;
        let r: Result<usize, DatabaseFailure> = self.database.insert_job(row);
        let ghost statement = Statement::InsertJob { job: *row, answer: r };
        self.history = Ghost(noted(start, statement, self.database));
        proof {
            lemma_ran_one(start, *self, statement);
        }
        r
    }

    /// The job with the identifier, if it is stored.
    pub fn find_job(&self, id: &str) -> (r: Result<Option<JobRow>, DatabaseFailure>)
        ensures
            ran_find_job(self.state(), id@, r),
    {
        self.database.find_job(id)
    }

    /// Jobs in the order of their identifiers, those after the given one where there is one.
    pub fn page_jobs(
        &self,
        after: Option<&str>,
        limit: i64,
    ) -> (r: Result<Vec<JobRow>, DatabaseFailure>)
        requires
            0 < limit,
        ensures
            ran_page_jobs(self.state(), text_given(after), limit, r),
    {
        self.database.page_jobs(after, limit)
    }

    /// Deletes the job if it has the revision.
    pub fn delete_job(&mut self, id: &str, revision: i64) -> (r: Result<usize, DatabaseFailure>)
        requires
            0 < revision,
        ensures
            final(self).ran(
                *old(self),
                seq![(Statement::DeleteJob {
                    id: id@,
                    revision,
                    answer: r,
                })],
            ),
            exists|database: &mut D|
                {
                    &&& #[trigger] call_ensures(D::delete_job, (database, id, revision), r)
                    &&& *database == old(self).state()
                    &&& *final(database) == final(self).state()
                },
    {
        let ghost start = *self;
        let r: Result<usize, DatabaseFailure> = self.database.delete_job(id, revision);
        let ghost statement = Statement::DeleteJob { id: id@, revision, answer: r };
        self.history = Ghost(noted(start, statement, self.database));
        proof {
            lemma_ran_one(start, *self, statement);
        }
        r
    }

    /// Gives the job a new revision, state and update time if it has the expected revision and,
    /// where one is given, the expected state.
    pub fn update_job_state(
        &mut self,
        id: &str,
        expected_revision: i64,
        expected_state: Option<&str>,
        revision: i64,
        state: &str,
        updated_at_utc: &str,
    ) -> (r: Result<usize, DatabaseFailure>)
        requires
            next_in_column(expected_revision, revision),
            job_state_named(state@) is Some,
            expected_state matches Some(name) ==> (job_state_named(name@) matches Some(from)
                && legal_move(from, job_state_named(state@)->0)),
            is_time(updated_at_utc@),
        ensures
            final(self).ran(
                *old(self),
                seq![(Statement::UpdateJobState {
                    id: id@,
                    expected_revision,
                    expected_state: text_given(expected_state),
                    revision,
                    state: state@,
                    updated_at_utc: updated_at_utc@,
                    answer: r,
                })],
            ),
            exists|database: &mut D|
                {
                    &&& #[trigger] call_ensures(
                        D::update_job_state,
                        (database, id, expected_revision, expected_state, revision, state, updated_at_utc),
                        r,
                    )
                    &&& *database == old(self).state()
                    &&& *final(database) == final(self).state()
                },
    {
        let ghost start = *self;
        let r: Result<usize, DatabaseFailure> = self.database.update_job_state(
            id,
            expected_revision,
            expected_state,
            revision,
            state,
            updated_at_utc,
        );
        let ghost statement = Statement::UpdateJobState {
            id: id@,
            expected_revision,
            expected_state: text_given(expected_state),
            revision,
            state: state@,
            updated_at_utc: updated_at_utc@,
            answer: r,
        };
        self.history = Ghost(noted(start, statement, self.database));
        proof {
            lemma_ran_one(start, *self, statement);
        }
        r
    }

    /// Gives a scheduled or waiting job a new revision, update time and deadline if it has the
    /// expected revision.
    pub fn postpone_job(
        &mut self,
        id: &str,
        expected_revision: i64,
        revision: i64,
        updated_at_utc: &str,
        next_due_utc: &str,
    ) -> (r: Result<usize, DatabaseFailure>)
        requires
            next_in_column(expected_revision, revision),
            is_time(updated_at_utc@),
            is_time(next_due_utc@),
        ensures
            final(self).ran(
                *old(self),
                seq![(Statement::PostponeJob {
                    id: id@,
                    expected_revision,
                    revision,
                    updated_at_utc: updated_at_utc@,
                    next_due_utc: next_due_utc@,
                    answer: r,
                })],
            ),
            exists|database: &mut D|
                {
                    &&& #[trigger] call_ensures(
                        D::postpone_job,
                        (database, id, expected_revision, revision, updated_at_utc, next_due_utc),
                        r,
                    )
                    &&& *database == old(self).state()
                    &&& *final(database) == final(self).state()
                },
    {
        let ghost start = *self;
        let r: Result<usize, DatabaseFailure> = self.database.postpone_job(
            id,
            expected_revision,
            revision,
            updated_at_utc,
            next_due_utc,
        );
        let ghost statement = Statement::PostponeJob {
            id: id@,
            expected_revision,
            revision,
            updated_at_utc: updated_at_utc@,
            next_due_utc: next_due_utc@,
            answer: r,
        };
        self.history = Ghost(noted(start, statement, self.database));
        proof {
            lemma_ran_one(start, *self, statement);
        }
        r
    }

    /// Makes the job wait for a deadline now, with a new revision, if it has the expected revision
    /// and state.
    pub fn requeue_job(
        &mut self,
        id: &str,
        expected_revision: i64,
        expected_state: &str,
        revision: i64,
        now: &str,
    ) -> (r: Result<usize, DatabaseFailure>)
        requires
            next_in_column(expected_revision, revision),
            job_state_named(expected_state@) matches Some(from) && from.terminal(),
            is_time(now@),
        ensures
            final(self).ran(
                *old(self),
                seq![(Statement::RequeueJob {
                    id: id@,
                    expected_revision,
                    from_state: expected_state@,
                    revision,
                    now: now@,
                    answer: r,
                })],
            ),
            exists|database: &mut D|
                {
                    &&& #[trigger] call_ensures(
                        D::requeue_job,
                        (database, id, expected_revision, expected_state, revision, now),
                        r,
                    )
                    &&& *database == old(self).state()
                    &&& *final(database) == final(self).state()
                },
    {
        let ghost start = *self;
        let r: Result<usize, DatabaseFailure> = self.database.requeue_job(
            id,
            expected_revision,
            expected_state,
            revision,
            now,
        );
        let ghost statement = Statement::RequeueJob {
            id: id@,
            expected_revision,
            from_state: expected_state@,
            revision,
            now: now@,
            answer: r,
        };
        self.history = Ghost(noted(start, statement, self.database));
        proof {
            lemma_ran_one(start, *self, statement);
        }
        r
    }

    /// The state of the job if it has the revision and, where that is asked for, is not hidden.
    pub fn job_state_at(
        &self,
        id: &str,
        revision: i64,
        visible_only: bool,
    ) -> (r: Result<Option<String>, DatabaseFailure>)
        requires
            0 < revision,
        ensures
            ran_job_state_at(self.state(), id@, revision, visible_only, r),
    {
        self.database.job_state_at(id, revision, visible_only)
    }

    /// Hides the job if it has the revision, is done and is not hidden.
    pub fn hide_finished_job(
        &mut self,
        id: &str,
        revision: i64,
    ) -> (r: Result<usize, DatabaseFailure>)
        requires
            0 < revision,
        ensures
            final(self).ran(
                *old(self),
                seq![(Statement::HideFinishedJob {
                    id: id@,
                    revision,
                    answer: r,
                })],
            ),
            exists|database: &mut D|
                {
                    &&& #[trigger] call_ensures(D::hide_finished_job, (database, id, revision), r)
                    &&& *database == old(self).state()
                    &&& *final(database) == final(self).state()
                },
    {
        let ghost start = *self;
        let r: Result<usize, DatabaseFailure> = self.database.hide_finished_job(id, revision);
        let ghost statement = Statement::HideFinishedJob { id: id@, revision, answer: r };
        self.history = Ghost(noted(start, statement, self.database));
        proof {
            lemma_ran_one(start, *self, statement);
        }
        r
    }

    /// Visible jobs in the order of their identifiers: those after the given one, or all for an
    /// empty text, in the given state where there is one.
    pub fn visible_jobs(
        &self,
        state: Option<&str>,
        after: &str,
        limit: i64,
    ) -> (r: Result<Vec<JobRow>, DatabaseFailure>)
        requires
            state matches Some(name) ==> job_state_named(name@) is Some,
            0 <= limit,
        ensures
            ran_visible_jobs(self.state(), text_given(state), after@, limit, r),
    {
        self.database.visible_jobs(state, after, limit)
    }

    /// Visible jobs whose identifiers start with the prefix, in the order of their identifiers.
    pub fn visible_jobs_by_prefix(
        &self,
        prefix: &str,
        length: i64,
        limit: i64,
    ) -> (r: Result<Vec<JobRow>, DatabaseFailure>)
        requires
            0 <= limit,
        ensures
            ran_visible_jobs_by_prefix(self.state(), prefix@, length, limit, r),
    {
        self.database.visible_jobs_by_prefix(prefix, length, limit)
    }

    /// Jobs that are not done, in the order of their identifiers.
    pub fn unfinished_jobs(&self, limit: i64) -> (r: Result<Vec<JobRow>, DatabaseFailure>)
        requires
            0 < limit,
        ensures
            ran_unfinished_jobs(self.state(), limit, r),
    {
        self.database.unfinished_jobs(limit)
    }

    /// Records a transition.
    pub fn insert_transition(&mut self, row: &TransitionRow) -> (r: Result<usize, DatabaseFailure>)
        requires
            records_legal_move(*row),
        ensures
            final(self).ran(
                *old(self),
                seq![(Statement::InsertTransition {
                    row: *row,
                    answer: r,
                })],
            ),
            exists|database: &mut D|
                {
                    &&& #[trigger] call_ensures(D::insert_transition, (database, row), r)
                    &&& *database == old(self).state()
                    &&& *final(database) == final(self).state()
                },
    {
        let ghost start = *self;
        let r: Result<usize, DatabaseFailure> = self.database.insert_transition(row);
        let ghost statement = Statement::InsertTransition { row: *row, answer: r };
        self.history = Ghost(noted(start, statement, self.database));
        proof {
            lemma_ran_one(start, *self, statement);
        }
        r
    }

    /// Whether the job has a run for the deadline.
    pub fn has_run(
        &self,
        job_id: &str,
        scheduled_for_utc: &str,
    ) -> (r: Result<bool, DatabaseFailure>)
        requires
            is_time(scheduled_for_utc@),
        ensures
            ran_has_run(self.state(), job_id@, scheduled_for_utc@, r),
    {
        self.database.has_run(job_id, scheduled_for_utc)
    }

    /// The highest sequence of the runs of the job, or 0.
    pub fn last_sequence(&self, job_id: &str) -> (r: Result<i64, DatabaseFailure>)
        ensures
            ran_last_sequence(self.state(), job_id@, r),
    {
        self.database.last_sequence(job_id)
    }

    /// Inserts a run.
    pub fn insert_run(&mut self, row: &RunRow) -> (r: Result<usize, DatabaseFailure>)
        requires
            holds_claim(*row),
        ensures
            final(self).ran(*old(self), seq![(Statement::InsertRun { run: *row, answer: r })]),
            exists|database: &mut D|
                {
                    &&& #[trigger] call_ensures(D::insert_run, (database, row), r)
                    &&& *database == old(self).state()
                    &&& *final(database) == final(self).state()
                },
    {
        let ghost start = *self;
        let r: Result<usize, DatabaseFailure> = self.database.insert_run(row);
        let ghost statement = Statement::InsertRun { run: *row, answer: r };
        self.history = Ghost(noted(start, statement, self.database));
        proof {
            lemma_ran_one(start, *self, statement);
        }
        r
    }

    /// The run with the identifier, if it is stored.
    pub fn find_run(&self, id: &str) -> (r: Result<Option<RunRow>, DatabaseFailure>)
        ensures
            ran_find_run(self.state(), id@, r),
    {
        self.database.find_run(id)
    }

    /// Writes the columns of a start to a starting run with the claim.
    pub fn start_run(
        &mut self,
        id: &str,
        token: &ClaimToken,
        columns: &StartColumns,
    ) -> (r: Result<usize, DatabaseFailure>)
        requires
            starts_run(*columns),
        ensures
            final(self).ran(
                *old(self),
                seq![(Statement::StartRun {
                    id: id@,
                    token: *token,
                    columns: *columns,
                    answer: r,
                })],
            ),
            exists|database: &mut D|
                {
                    &&& #[trigger] call_ensures(D::start_run, (database, id, token, columns), r)
                    &&& *database == old(self).state()
                    &&& *final(database) == final(self).state()
                },
    {
        let ghost start = *self;
        let r: Result<usize, DatabaseFailure> = self.database.start_run(id, token, columns);
        let ghost statement = Statement::StartRun {
            id: id@,
            token: *token,
            columns: *columns,
            answer: r,
        };
        self.history = Ghost(noted(start, statement, self.database));
        proof {
            lemma_ran_one(start, *self, statement);
        }
        r
    }

    /// Writes the columns of an end to an active run with the claim.
    pub fn finish_run(
        &mut self,
        id: &str,
        token: &ClaimToken,
        columns: &FinishColumns,
    ) -> (r: Result<usize, DatabaseFailure>)
        requires
            ends_run(*columns),
        ensures
            final(self).ran(
                *old(self),
                seq![(Statement::FinishRun {
                    id: id@,
                    token: *token,
                    ending: *columns,
                    answer: r,
                })],
            ),
            exists|database: &mut D|
                {
                    &&& #[trigger] call_ensures(D::finish_run, (database, id, token, columns), r)
                    &&& *database == old(self).state()
                    &&& *final(database) == final(self).state()
                },
    {
        let ghost start = *self;
        let r: Result<usize, DatabaseFailure> = self.database.finish_run(id, token, columns);
        let ghost statement = Statement::FinishRun {
            id: id@,
            token: *token,
            ending: *columns,
            answer: r,
        };
        self.history = Ghost(noted(start, statement, self.database));
        proof {
            lemma_ran_one(start, *self, statement);
        }
        r
    }

    /// Requests the cancellation of a run with the claim that is in the state.
    pub fn request_cancel(
        &mut self,
        id: &str,
        token: &ClaimToken,
        state: &str,
    ) -> (r: Result<usize, DatabaseFailure>)
        requires
            run_state_named(state@) == Some(RunState::Starting) || run_state_named(state@) == Some(
                RunState::Running,
            ),
        ensures
            final(self).ran(
                *old(self),
                seq![(Statement::RequestCancel {
                    id: id@,
                    token: *token,
                    state: state@,
                    answer: r,
                })],
            ),
            exists|database: &mut D|
                {
                    &&& #[trigger] call_ensures(D::request_cancel, (database, id, token, state), r)
                    &&& *database == old(self).state()
                    &&& *final(database) == final(self).state()
                },
    {
        let ghost start = *self;
        let r: Result<usize, DatabaseFailure> = self.database.request_cancel(id, token, state);
        let ghost statement = Statement::RequestCancel {
            id: id@,
            token: *token,
            state: state@,
            answer: r,
        };
        self.history = Ghost(noted(start, statement, self.database));
        proof {
            lemma_ran_one(start, *self, statement);
        }
        r
    }

    /// Deletes the runs of the job.
    pub fn delete_runs_of(&mut self, job_id: &str) -> (r: Result<usize, DatabaseFailure>)
        ensures
            final(self).ran(
                *old(self),
                seq![(Statement::DeleteRunsOf {
                    job_id: job_id@,
                    answer: r,
                })],
            ),
            exists|database: &mut D|
                {
                    &&& #[trigger] call_ensures(D::delete_runs_of, (database, job_id), r)
                    &&& *database == old(self).state()
                    &&& *final(database) == final(self).state()
                },
    {
        let ghost start = *self;
        let r: Result<usize, DatabaseFailure> = self.database.delete_runs_of(job_id);
        let ghost statement = Statement::DeleteRunsOf { job_id: job_id@, answer: r };
        self.history = Ghost(noted(start, statement, self.database));
        proof {
            lemma_ran_one(start, *self, statement);
        }
        r
    }

    /// Runs that are done, of the job or of all jobs, the latest first.
    pub fn completed_runs(
        &self,
        job_id: Option<&str>,
        limit: i64,
    ) -> (r: Result<Vec<RunRow>, DatabaseFailure>)
        requires
            0 <= limit,
        ensures
            ran_completed_runs(self.state(), text_given(job_id), limit, r),
    {
        self.database.completed_runs(job_id, limit)
    }

    /// Runs that are not done, the earliest first.
    pub fn active_runs(&self, limit: i64) -> (r: Result<Vec<RunRow>, DatabaseFailure>)
        requires
            0 < limit,
        ensures
            ran_active_runs(self.state(), limit, r),
    {
        self.database.active_runs(limit)
    }

    /// The run of the job with the highest sequence among those that are not done.
    pub fn latest_active_run(&self, job_id: &str) -> (r: Result<Option<RunRow>, DatabaseFailure>)
        ensures
            ran_latest_active_run(self.state(), job_id@, r),
    {
        self.database.latest_active_run(job_id)
    }

    /// The run of the job with the highest sequence.
    pub fn latest_run(&self, job_id: &str) -> (r: Result<Option<RunRow>, DatabaseFailure>)
        ensures
            ran_latest_run(self.state(), job_id@, r),
    {
        self.database.latest_run(job_id)
    }

    /// Runs whose identifiers start with the prefix, in the order of their identifiers.
    pub fn runs_by_prefix(
        &self,
        prefix: &str,
        length: i64,
        limit: i64,
    ) -> (r: Result<Vec<RunRow>, DatabaseFailure>)
        requires
            0 <= limit,
        ensures
            ran_runs_by_prefix(self.state(), prefix@, length, limit, r),
    {
        self.database.runs_by_prefix(prefix, length, limit)
    }

    /// Whether the standard output and the standard error of the run were truncated.
    pub fn truncation(&self, run_id: &str) -> (r: Result<Option<(bool, bool)>, DatabaseFailure>)
        ensures
            ran_truncation(self.state(), run_id@, r),
    {
        self.database.truncation(run_id)
    }

    /// Records what was truncated of a run with the claim.
    pub fn set_truncation(
        &mut self,
        run_id: &str,
        token: &ClaimToken,
        stdout_truncated: bool,
        stderr_truncated: bool,
    ) -> (r: Result<usize, DatabaseFailure>)
        ensures
            final(self).ran(
                *old(self),
                seq![(Statement::SetTruncation {
                    run_id: run_id@,
                    token: *token,
                    stdout_truncated,
                    stderr_truncated,
                    answer: r,
                })],
            ),
            exists|database: &mut D|
                {
                    &&& #[trigger] call_ensures(
                        D::set_truncation,
                        (database, run_id, token, stdout_truncated, stderr_truncated),
                        r,
                    )
                    &&& *database == old(self).state()
                    &&& *final(database) == final(self).state()
                },
    {
        let ghost start = *self;
        let r: Result<usize, DatabaseFailure> = self.database.set_truncation(
            run_id,
            token,
            stdout_truncated,
            stderr_truncated,
        );
        let ghost statement = Statement::SetTruncation {
            run_id: run_id@,
            token: *token,
            stdout_truncated,
            stderr_truncated,
            answer: r,
        };
        self.history = Ghost(noted(start, statement, self.database));
        proof {
            lemma_ran_one(start, *self, statement);
        }
        r
    }

    /// Deletes the runs that ended before the time.
    pub fn delete_old_runs(&mut self, before: &str) -> (r: Result<usize, DatabaseFailure>)
        requires
            is_time(before@),
        ensures
            final(self).ran(
                *old(self),
                seq![(Statement::DeleteOldRuns {
                    before: before@,
                    answer: r,
                })],
            ),
            exists|database: &mut D|
                {
                    &&& #[trigger] call_ensures(D::delete_old_runs, (database, before), r)
                    &&& *database == old(self).state()
                    &&& *final(database) == final(self).state()
                },
    {
        let ghost start = *self;
        let r: Result<usize, DatabaseFailure> = self.database.delete_old_runs(before);
        let ghost statement = Statement::DeleteOldRuns { before: before@, answer: r };
        self.history = Ghost(noted(start, statement, self.database));
        proof {
            lemma_ran_one(start, *self, statement);
        }
        r
    }

    /// Deletes the transitions that occurred before the time.
    pub fn delete_old_transitions(&mut self, before: &str) -> (r: Result<usize, DatabaseFailure>)
        requires
            is_time(before@),
        ensures
            final(self).ran(
                *old(self),
                seq![(Statement::DeleteOldTransitions {
                    before: before@,
                    answer: r,
                })],
            ),
            exists|database: &mut D|
                {
                    &&& #[trigger] call_ensures(D::delete_old_transitions, (database, before), r)
                    &&& *database == old(self).state()
                    &&& *final(database) == final(self).state()
                },
    {
        let ghost start = *self;
        let r: Result<usize, DatabaseFailure> = self.database.delete_old_transitions(before);
        let ghost statement = Statement::DeleteOldTransitions { before: before@, answer: r };
        self.history = Ghost(noted(start, statement, self.database));
        proof {
            lemma_ran_one(start, *self, statement);
        }
        r
    }

    /// Deletes the jobs that are done and were last updated before the time.
    pub fn delete_old_jobs(&mut self, before: &str) -> (r: Result<usize, DatabaseFailure>)
        requires
            is_time(before@),
        ensures
            final(self).ran(
                *old(self),
                seq![(Statement::DeleteOldJobs {
                    before: before@,
                    answer: r,
                })],
            ),
            exists|database: &mut D|
                {
                    &&& #[trigger] call_ensures(D::delete_old_jobs, (database, before), r)
                    &&& *database == old(self).state()
                    &&& *final(database) == final(self).state()
                },
    {
        let ghost start = *self;
        let r: Result<usize, DatabaseFailure> = self.database.delete_old_jobs(before);
        let ghost statement = Statement::DeleteOldJobs { before: before@, answer: r };
        self.history = Ghost(noted(start, statement, self.database));
        proof {
            lemma_ran_one(start, *self, statement);
        }
        r
    }
}

/// The history with one more statement.
spec fn noted<D: Database>(before: Connection<D>, statement: Statement, after: D) -> Seq<Entry<D>> {
    before.history().push(Entry { before: before.state(), statement, after })
}

proof fn lemma_ran_one<D: Database>(
    before: Connection<D>,
    after: Connection<D>,
    statement: Statement,
)
    requires
        after.history() == noted(before, statement, after.state()),
    ensures
        after.ran(before, seq![statement]),
{
    assert(after.history().take(before.history().len() as int) =~= before.history());
    assert(statements_of(after.since(before)) =~= seq![statement]);
}

/// Nothing is run between a connection and itself.
pub proof fn lemma_ran_nothing<D: Database>(connection: Connection<D>)
    ensures
        connection.ran(connection, Seq::empty()),
{
    assert(connection.history().take(connection.history().len() as int) =~= connection.history());
    assert(statements_of(connection.since(connection)) =~= Seq::<Statement>::empty());
}

/// What was run up to a connection and from there on was run one after the other.
pub proof fn lemma_ran_both<D: Database>(
    first: Connection<D>,
    middle: Connection<D>,
    last: Connection<D>,
    one: Seq<Statement>,
    two: Seq<Statement>,
)
    requires
        middle.ran(first, one),
        last.ran(middle, two),
    ensures
        last.ran(first, one + two),
        last.since(first) == middle.since(first) + last.since(middle),
{
    let start = first.history().len() as int;
    let split = middle.history().len() as int;
    assert(last.history().take(start) =~= last.history().take(split).take(start));
    assert(last.since(first) =~= middle.since(first) + last.since(middle));
    assert(statements_of(last.since(first)) =~= statements_of(middle.since(first))
        + statements_of(last.since(middle)));
    let entries = last.since(first);
    let left = middle.since(first);
    let right = last.since(middle);
    assert forall|i: int| 0 < i < entries.len() implies (#[trigger] entries[i]).before == entries[i
        - 1].after by {
        if i < left.len() {
            assert(left[i].before == left[i - 1].after);
        } else if i > left.len() {
            assert(right[i - left.len()].before == right[i - left.len() - 1].after);
        }
    }
}

} // verus!
