//! The statements that the store asks a database to run.
use vstd::prelude::*;

use super::database::DatabaseFailure;
use super::job_row::{stores_job, JobRow};
use super::names::{job_state_named, run_state_name, run_state_named};
use super::run_row::{
    just_claimed, outcome_columns_agree, stores_run, FinishColumns, RunRow, StartColumns,
};
use crate::domain::execution::optional_text;
use crate::domain::job::JobModel;
use crate::domain::run::{state_of_outcome, valid_identity, ClaimToken, RunModel};
use crate::domain::state::{JobState, RunState};
use crate::domain::transition::{job_legal, valid_reason};
use crate::outside::timestamp_text;
use crate::path_text::stays_below;

verus! {

/// A row of the table of transitions.
#[derive(Debug, PartialEq, Eq)]
pub struct TransitionRow {
    pub job_id: String,
    pub from_state: String,
    pub to_state: String,
    pub occurred_at_utc: String,
    pub actor: String,
    pub reason: String,
    pub revision: i64,
}

/// The text is an instant as it is stored.
pub open spec fn is_time(text: Seq<char>) -> bool {
    exists|nanos: int| text == #[trigger] timestamp_text(nanos)
}

/// A row with a revision gets the next one.
pub open spec fn next_in_column(expected: i64, revision: i64) -> bool {
    0 < expected && revision == expected + 1
}

/// A stored job may move from one state to the other: by a legal transition, or because a job that
/// is done is explicitly run again.
pub open spec fn legal_move(from: JobState, to: JobState) -> bool {
    job_legal(from, to, true) || from.terminal() && to == JobState::Waiting
}

/// The row records a legal move.
pub open spec fn records_legal_move(row: TransitionRow) -> bool {
    &&& job_state_named(row.from_state@) matches Some(from) && (job_state_named(
        row.to_state@,
    ) matches Some(to) && legal_move(from, to))
    &&& valid_reason(row.reason@)
    &&& is_time(row.occurred_at_utc@)
    &&& 0 < row.revision
}

/// The row holds a job.
pub open spec fn holds_job(row: JobRow) -> bool {
    exists|job: JobModel| #[trigger] stores_job(row, job)
}

/// The row holds a run that was just claimed.
pub open spec fn holds_claim(row: RunRow) -> bool {
    exists|run: RunModel| just_claimed(run) && #[trigger] stores_run(row, run)
}

/// The columns are those of a start with full identities and log paths below the state directory.
pub open spec fn starts_run(columns: StartColumns) -> bool {
    &&& is_time(columns.started_at_utc@)
    &&& valid_identity(columns.monitor_identity@)
    &&& valid_identity(columns.command_identity@)
    &&& columns.process_group_id == columns.command_identity.process_group_id
    &&& stays_below(columns.stdout_path@)
    &&& stays_below(columns.stderr_path@)
}

/// The columns are those of an end, and all of them tell the same outcome.
pub open spec fn ends_run(columns: FinishColumns) -> bool {
    &&& is_time(columns.finished_at_utc@)
    &&& columns.state@ == run_state_name(state_of_outcome(columns.outcome@))
    &&& outcome_columns_agree(
        Some(columns.outcome@),
        columns.exit_code,
        columns.terminating_signal,
        optional_text(columns.failure),
    )
}

/// A database with the tables of jobs, runs and transitions. Each method is one statement; writes
/// return the number of rows that they changed. What a method requires is what the store never
/// fails to hand over: only whole jobs and fresh claims are inserted, a revision only ever grows by
/// one, and every recorded move is legal.
pub trait Database {
    /// Starts a transaction that may write.
    fn begin(&mut self) -> Result<(), DatabaseFailure>;

    /// Makes the writes of the transaction permanent.
    fn commit(&mut self) -> Result<(), DatabaseFailure>;

    /// Undoes the writes of the transaction.
    fn rollback(&mut self);

    fn insert_job(&mut self, row: &JobRow) -> Result<usize, DatabaseFailure>
        requires
            holds_job(*row),
    ;

    fn find_job(&self, id: &str) -> Result<Option<JobRow>, DatabaseFailure>;

    /// Jobs in the order of their identifiers, those after the given one where there is one.
    fn page_jobs(&self, after: Option<&str>, limit: i64) -> Result<Vec<JobRow>, DatabaseFailure>
        requires
            0 < limit,
    ;

    /// Deletes the job if it has the revision.
    fn delete_job(&mut self, id: &str, revision: i64) -> Result<usize, DatabaseFailure>
        requires
            0 < revision,
    ;

    /// Gives the job a new revision, state and update time if it has the expected revision and,
    /// where one is given, the expected state.
    fn update_job_state(
        &mut self,
        id: &str,
        expected_revision: i64,
        expected_state: Option<&str>,
        revision: i64,
        state: &str,
        updated_at_utc: &str,
    ) -> Result<usize, DatabaseFailure>
        requires
            next_in_column(expected_revision, revision),
            job_state_named(state@) is Some,
            expected_state matches Some(name) ==> (job_state_named(name@) matches Some(from)
                && legal_move(from, job_state_named(state@)->0)),
            is_time(updated_at_utc@),
    ;

    /// Gives a scheduled or waiting job a new revision, update time and deadline if it has the
    /// expected revision.
    fn postpone_job(
        &mut self,
        id: &str,
        expected_revision: i64,
        revision: i64,
        updated_at_utc: &str,
        next_due_utc: &str,
    ) -> Result<usize, DatabaseFailure>
        requires
            next_in_column(expected_revision, revision),
            is_time(updated_at_utc@),
            is_time(next_due_utc@),
    ;

    /// Makes the job wait for a deadline now, with a new revision, if it has the expected revision
    /// and state.
    fn requeue_job(
        &mut self,
        id: &str,
        expected_revision: i64,
        expected_state: &str,
        revision: i64,
        now: &str,
    ) -> Result<usize, DatabaseFailure>
        requires
            next_in_column(expected_revision, revision),
            job_state_named(expected_state@) matches Some(from) && from.terminal(),
            is_time(now@),
    ;

    /// The state of the job if it has the revision and, where that is asked for, is not hidden.
    fn job_state_at(&self, id: &str, revision: i64, visible_only: bool) -> Result<
        Option<String>,
        DatabaseFailure,
    >
        requires
            0 < revision,
    ;

    /// Hides the job if it has the revision, is done and is not hidden.
    fn hide_finished_job(&mut self, id: &str, revision: i64) -> Result<usize, DatabaseFailure>
        requires
            0 < revision,
    ;

    /// Visible jobs in the order of their identifiers: those after the given one, or all for an
    /// empty text, in the given state where there is one.
    fn visible_jobs(&self, state: Option<&str>, after: &str, limit: i64) -> Result<
        Vec<JobRow>,
        DatabaseFailure,
    >
        requires
            state matches Some(name) ==> job_state_named(name@) is Some,
            0 <= limit,
    ;

    /// Visible jobs whose identifiers start with the prefix, in the order of their identifiers.
    fn visible_jobs_by_prefix(&self, prefix: &str, length: i64, limit: i64) -> Result<
        Vec<JobRow>,
        DatabaseFailure,
    >
        requires
            0 <= limit,
    ;

    /// Jobs that are not done, in the order of their identifiers.
    fn unfinished_jobs(&self, limit: i64) -> Result<Vec<JobRow>, DatabaseFailure>
        requires
            0 < limit,
    ;

    fn insert_transition(&mut self, row: &TransitionRow) -> Result<usize, DatabaseFailure>
        requires
            records_legal_move(*row),
    ;

    /// Whether the job has a run for the deadline.
    fn has_run(&self, job_id: &str, scheduled_for_utc: &str) -> Result<bool, DatabaseFailure>
        requires
            is_time(scheduled_for_utc@),
    ;

    /// The highest sequence of the runs of the job, or 0.
    fn last_sequence(&self, job_id: &str) -> Result<i64, DatabaseFailure>;

    fn insert_run(&mut self, row: &RunRow) -> Result<usize, DatabaseFailure>
        requires
            holds_claim(*row),
    ;

    fn find_run(&self, id: &str) -> Result<Option<RunRow>, DatabaseFailure>;

    /// Writes the columns of a start to a starting run with the claim.
    fn start_run(&mut self, id: &str, token: &ClaimToken, columns: &StartColumns) -> Result<
        usize,
        DatabaseFailure,
    >
        requires
            starts_run(*columns),
    ;

    /// Writes the columns of an end to an active run with the claim.
    fn finish_run(&mut self, id: &str, token: &ClaimToken, columns: &FinishColumns) -> Result<
        usize,
        DatabaseFailure,
    >
        requires
            ends_run(*columns),
    ;

    /// Requests the cancellation of a run with the claim that is in the state.
    fn request_cancel(&mut self, id: &str, token: &ClaimToken, state: &str) -> Result<
        usize,
        DatabaseFailure,
    >
        requires
            run_state_named(state@) == Some(RunState::Starting) || run_state_named(state@) == Some(
                RunState::Running,
            ),
    ;

    /// Deletes the runs of the job.
    fn delete_runs_of(&mut self, job_id: &str) -> Result<usize, DatabaseFailure>;

    /// Runs that are done, of the job or of all jobs, the latest first.
    fn completed_runs(&self, job_id: Option<&str>, limit: i64) -> Result<Vec<RunRow>, DatabaseFailure>
        requires
            0 <= limit,
    ;

    /// Runs that are not done, the earliest first.
    fn active_runs(&self, limit: i64) -> Result<Vec<RunRow>, DatabaseFailure>
        requires
            0 < limit,
    ;

    /// The run of the job with the highest sequence among those that are not done.
    fn latest_active_run(&self, job_id: &str) -> Result<Option<RunRow>, DatabaseFailure>;

    /// The run of the job with the highest sequence.
    fn latest_run(&self, job_id: &str) -> Result<Option<RunRow>, DatabaseFailure>;

    /// Runs whose identifiers start with the prefix, in the order of their identifiers.
    fn runs_by_prefix(&self, prefix: &str, length: i64, limit: i64) -> Result<
        Vec<RunRow>,
        DatabaseFailure,
    >
        requires
            0 <= limit,
    ;

    /// Whether the standard output and the standard error of the run were truncated.
    fn truncation(&self, run_id: &str) -> Result<Option<(bool, bool)>, DatabaseFailure>;

    /// Records what was truncated of a run with the claim.
    fn set_truncation(
        &mut self,
        run_id: &str,
        token: &ClaimToken,
        stdout_truncated: bool,
        stderr_truncated: bool,
    ) -> Result<usize, DatabaseFailure>;

    /// Deletes the runs that ended before the time.
    fn delete_old_runs(&mut self, before: &str) -> Result<usize, DatabaseFailure>
        requires
            is_time(before@),
    ;

    /// Deletes the transitions that occurred before the time.
    fn delete_old_transitions(&mut self, before: &str) -> Result<usize, DatabaseFailure>
        requires
            is_time(before@),
    ;

    /// Deletes the jobs that are done and were last updated before the time.
    fn delete_old_jobs(&mut self, before: &str) -> Result<usize, DatabaseFailure>
        requires
            is_time(before@),
    ;
}

} // verus!
