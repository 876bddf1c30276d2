//! What it means that a database was asked something: the question with what was handed over, and
//! the answer that came back.
use vstd::prelude::*;

use super::database::DatabaseFailure;
use super::job_row::JobRow;
use super::run_row::RunRow;
use super::tables::Database;

verus! {

/// The text where there is one.
pub open spec fn text_given(text: Option<&str>) -> Option<Seq<char>> {
    match text {
        Some(inner) => Some(inner@),
        None => None,
    }
}

/// The job was asked for, with this answer.
pub open spec fn ran_find_job<D: Database>(
    database: D,
    id: Seq<char>,
    r: Result<Option<JobRow>, DatabaseFailure>,
) -> bool {
    exists|id_given: &str|
        {
            &&& #[trigger] call_ensures(D::find_job, (&database, id_given), r)
            &&& id_given@ == id
        }
}

/// The jobs after the given one were asked for, with this answer.
pub open spec fn ran_page_jobs<D: Database>(
    database: D,
    after: Option<Seq<char>>,
    limit: i64,
    r: Result<Vec<JobRow>, DatabaseFailure>,
) -> bool {
    exists|after_given: Option<&str>|
        {
            &&& #[trigger] call_ensures(D::page_jobs, (&database, after_given, limit), r)
            &&& text_given(after_given) == after
        }
}

/// The state of the job at the revision was asked for, with this answer.
pub open spec fn ran_job_state_at<D: Database>(
    database: D,
    id: Seq<char>,
    revision: i64,
    visible_only: bool,
    r: Result<Option<String>, DatabaseFailure>,
) -> bool {
    exists|id_given: &str|
        {
            &&& #[trigger] call_ensures(
                D::job_state_at,
                (&database, id_given, revision, visible_only),
                r,
            )
            &&& id_given@ == id
        }
}

/// The visible jobs were asked for, with this answer.
pub open spec fn ran_visible_jobs<D: Database>(
    database: D,
    state: Option<Seq<char>>,
    after: Seq<char>,
    limit: i64,
    r: Result<Vec<JobRow>, DatabaseFailure>,
) -> bool {
    exists|state_given: Option<&str>, after_given: &str|
        {
            &&& #[trigger] call_ensures(
                D::visible_jobs,
                (&database, state_given, after_given, limit),
                r,
            )
            &&& text_given(state_given) == state
            &&& after_given@ == after
        }
}

/// The visible jobs with the prefix were asked for, with this answer.
pub open spec fn ran_visible_jobs_by_prefix<D: Database>(
    database: D,
    prefix: Seq<char>,
    length: i64,
    limit: i64,
    r: Result<Vec<JobRow>, DatabaseFailure>,
) -> bool {
    exists|prefix_given: &str|
        {
            &&& #[trigger] call_ensures(
                D::visible_jobs_by_prefix,
                (&database, prefix_given, length, limit),
                r,
            )
            &&& prefix_given@ == prefix
        }
}

/// The jobs that are not done were asked for, with this answer.
pub open spec fn ran_unfinished_jobs<D: Database>(
    database: D,
    limit: i64,
    r: Result<Vec<JobRow>, DatabaseFailure>,
) -> bool {
    call_ensures(D::unfinished_jobs, (&database, limit), r)
}

/// A run of the job for the deadline was asked for, with this answer.
pub open spec fn ran_has_run<D: Database>(
    database: D,
    job_id: Seq<char>,
    scheduled_for_utc: Seq<char>,
    r: Result<bool, DatabaseFailure>,
) -> bool {
    exists|job_id_given: &str, scheduled_for_utc_given: &str|
        {
            &&& #[trigger] call_ensures(
                D::has_run,
                (&database, job_id_given, scheduled_for_utc_given),
                r,
            )
            &&& job_id_given@ == job_id
            &&& scheduled_for_utc_given@ == scheduled_for_utc
        }
}

/// The highest sequence of the job was asked for, with this answer.
pub open spec fn ran_last_sequence<D: Database>(
    database: D,
    job_id: Seq<char>,
    r: Result<i64, DatabaseFailure>,
) -> bool {
    exists|job_id_given: &str|
        {
            &&& #[trigger] call_ensures(D::last_sequence, (&database, job_id_given), r)
            &&& job_id_given@ == job_id
        }
}

/// The run was asked for, with this answer.
pub open spec fn ran_find_run<D: Database>(
    database: D,
    id: Seq<char>,
    r: Result<Option<RunRow>, DatabaseFailure>,
) -> bool {
    exists|id_given: &str|
        {
            &&& #[trigger] call_ensures(D::find_run, (&database, id_given), r)
            &&& id_given@ == id
        }
}

/// The latest runs that are done were asked for, with this answer.
pub open spec fn ran_completed_runs<D: Database>(
    database: D,
    job_id: Option<Seq<char>>,
    limit: i64,
    r: Result<Vec<RunRow>, DatabaseFailure>,
) -> bool {
    exists|job_id_given: Option<&str>|
        {
            &&& #[trigger] call_ensures(D::completed_runs, (&database, job_id_given, limit), r)
            &&& text_given(job_id_given) == job_id
        }
}

/// The runs that are not done were asked for, with this answer.
pub open spec fn ran_active_runs<D: Database>(
    database: D,
    limit: i64,
    r: Result<Vec<RunRow>, DatabaseFailure>,
) -> bool {
    call_ensures(D::active_runs, (&database, limit), r)
}

/// The latest run of the job that is not done was asked for, with this answer.
pub open spec fn ran_latest_active_run<D: Database>(
    database: D,
    job_id: Seq<char>,
    r: Result<Option<RunRow>, DatabaseFailure>,
) -> bool {
    exists|job_id_given: &str|
        {
            &&& #[trigger] call_ensures(D::latest_active_run, (&database, job_id_given), r)
            &&& job_id_given@ == job_id
        }
}

/// The latest run of the job was asked for, with this answer.
pub open spec fn ran_latest_run<D: Database>(
    database: D,
    job_id: Seq<char>,
    r: Result<Option<RunRow>, DatabaseFailure>,
) -> bool {
    exists|job_id_given: &str|
        {
            &&& #[trigger] call_ensures(D::latest_run, (&database, job_id_given), r)
            &&& job_id_given@ == job_id
        }
}

/// The runs with the prefix were asked for, with this answer.
pub open spec fn ran_runs_by_prefix<D: Database>(
    database: D,
    prefix: Seq<char>,
    length: i64,
    limit: i64,
    r: Result<Vec<RunRow>, DatabaseFailure>,
) -> bool {
    exists|prefix_given: &str|
        {
            &&& #[trigger] call_ensures(
                D::runs_by_prefix,
                (&database, prefix_given, length, limit),
                r,
            )
            &&& prefix_given@ == prefix
        }
}

/// What was truncated of the run was asked for, with this answer.
pub open spec fn ran_truncation<D: Database>(
    database: D,
    run_id: Seq<char>,
    r: Result<Option<(bool, bool)>, DatabaseFailure>,
) -> bool {
    exists|run_id_given: &str|
        {
            &&& #[trigger] call_ensures(D::truncation, (&database, run_id_given), r)
            &&& run_id_given@ == run_id
        }
}

} // verus!
