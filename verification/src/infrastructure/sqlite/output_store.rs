//! The stored runs and jobs whose output is read.
use vstd::prelude::*;

use super::database::{answered, store_message, DatabaseFailure, StoreError, StoreFault};
use super::job_row::JobRow;
use super::job_store::JobStore;
use super::management::{jobs_with_prefix, sql_limit, sql_prefix};
use super::run_row::RunRow;
use super::run_store::{loaded_run, loaded_runs, read_run, read_runs};
use super::statements::{ran_latest_run, ran_runs_by_prefix, ran_truncation};
use super::tables::Database;
use crate::application::history::{RunOutputStore, RunOutputStoreError};
use crate::domain::id::{ascii_lower, id_text, JobId, RunId};
use crate::domain::job::Job;
use crate::domain::run::Run;
use crate::text::{copy_text, utf8_len};

verus! {

/// The error of the output store with a message.
pub fn output_store_error(message: &str) -> (r: RunOutputStoreError)
    ensures
        r.0@ == message@,
{
    RunOutputStoreError(copy_text(message))
}

/// The result is what the answer to a query for truncation gives.
pub open spec fn flags_read(
    found: Result<Option<(bool, bool)>, DatabaseFailure>,
    r: Result<(bool, bool), RunOutputStoreError>,
) -> bool {
    match found {
        Ok(Some(flags)) => r == Ok::<(bool, bool), RunOutputStoreError>(flags),
        Ok(None) => r matches Err(error) && error.0@ == "run row vanished"@,
        Err(failure) => r matches Err(error) && error.0@ == store_message(
            StoreFault::Sqlite(failure.spec_detail()),
        ),
    }
}

/// What was truncated, in the answer to a query for it.
pub fn read_flags(found: Result<Option<(bool, bool)>, DatabaseFailure>) -> (r: Result<
    (bool, bool),
    RunOutputStoreError,
>)
    ensures
        flags_read(found, r),
{
    match answered(found) {
        Ok(Some(flags)) => Ok(flags),
        Ok(None) => Err(output_store_error("run row vanished")),
        Err(error) => Err(output_store_error(error.to_string().as_str())),
    }
}

impl<D: Database> JobStore<D> {
    /// What was truncated of the output of a run.
    pub fn truncation_flags(&self, run_id: RunId) -> (r: Result<(bool, bool), RunOutputStoreError>)
        ensures
            exists|found: Result<Option<(bool, bool)>, DatabaseFailure>|
                {
                    &&& #[trigger] ran_truncation(self.connection.state(), id_text(run_id@), found)
                    &&& flags_read(found, r)
                },
    {
        let found: Result<Option<(bool, bool)>, DatabaseFailure> = self.connection.truncation(
            run_id.to_string().as_str(),
        );
        assert(ran_truncation(self.connection.state(), id_text(run_id@), found));
        read_flags(found)
    }
}

/// The result of the store, as reading output reports it.
pub open spec fn reported<T>(
    stored: Result<T, StoreError>,
    r: Result<T, RunOutputStoreError>,
) -> bool {
    match stored {
        Ok(value) => r == Ok::<T, RunOutputStoreError>(value),
        Err(fault) => r matches Err(error) && error.0@ == store_message(fault@),
    }
}

/// The result is what a query for runs with a prefix gives with the answer.
pub open spec fn runs_with_prefix<D: Database>(
    store: JobStore<D>,
    prefix: Seq<char>,
    limit: usize,
    found: Result<Vec<RunRow>, DatabaseFailure>,
    r: Result<Vec<Run>, RunOutputStoreError>,
) -> bool {
    let lower = ascii_lower(prefix);
    if utf8_len(lower) > i64::MAX {
        r matches Err(error) && error.0@ == "prefix length overflow"@
    } else if limit > i64::MAX {
        r matches Err(error) && error.0@ == "result limit overflow"@
    } else {
        &&& ran_runs_by_prefix(
            store.connection.state(),
            lower,
            utf8_len(lower) as i64,
            limit as i64,
            found,
        )
        &&& exists|stored: Result<Vec<Run>, StoreError>| #[trigger]
            loaded_runs(found, stored) && reported(stored, r)
    }
}

impl<D: Database> RunOutputStore for JobStore<D> {
    fn find_runs_by_prefix(&self, prefix: &str, limit: usize) -> (r: Result<
        Vec<Run>,
        RunOutputStoreError,
    >)
        ensures
            exists|found: Result<Vec<RunRow>, DatabaseFailure>| #[trigger]
                runs_with_prefix(*self, prefix@, limit, found, r),
    {
        let (lower, length): (String, i64) = match sql_prefix(prefix) {
            Ok(pair) => pair,
            Err(_) => {
                let r: Result<Vec<Run>, RunOutputStoreError> = Err(
                    output_store_error("prefix length overflow"),
                );
                assert(runs_with_prefix(*self, prefix@, limit, arbitrary(), r));
                return r;
            },
        };
        let bound: i64 = match sql_limit(limit) {
            Ok(bound) => bound,
            Err(_) => {
                let r: Result<Vec<Run>, RunOutputStoreError> = Err(
                    output_store_error("result limit overflow"),
                );
                assert(runs_with_prefix(*self, prefix@, limit, arbitrary(), r));
                return r;
            },
        };
        let found: Result<Vec<RunRow>, DatabaseFailure> = self.connection.runs_by_prefix(
            lower.as_str(),
            length,
            bound,
        );
        let ghost answer = found;
        assert(ran_runs_by_prefix(self.connection.state(), lower@, length, bound, answer));
        let stored: Result<Vec<Run>, StoreError> = read_runs(found);
        assert(loaded_runs(answer, stored));
        let r: Result<Vec<Run>, RunOutputStoreError> = match stored {
            Ok(runs) => Ok(runs),
            Err(error) => Err(output_store_error(error.to_string().as_str())),
        };
        assert(runs_with_prefix(*self, prefix@, limit, answer, r));
        r
    }

    fn latest_run(&self, job_id: JobId) -> (r: Result<Option<Run>, RunOutputStoreError>)
        ensures
            exists|
                found: Result<Option<RunRow>, DatabaseFailure>,
                stored: Result<Option<Run>, StoreError>,
            |
                {
                    &&& #[trigger] ran_latest_run(self.connection.state(), id_text(job_id@), found)
                    &&& #[trigger] loaded_run(found, stored)
                    &&& reported(stored, r)
                },
    {
        let found: Result<Option<RunRow>, DatabaseFailure> = self.connection.latest_run(
            job_id.to_string().as_str(),
        );
        let ghost answer = found;
        assert(ran_latest_run(self.connection.state(), id_text(job_id@), answer));
        let stored: Result<Option<Run>, StoreError> = read_run(found);
        assert(loaded_run(answer, stored));
        match stored {
            Ok(run) => Ok(run),
            Err(error) => Err(output_store_error(error.to_string().as_str())),
        }
    }

    fn find_jobs_by_prefix(&self, prefix: &str, limit: usize) -> (r: Result<
        Vec<Job>,
        RunOutputStoreError,
    >)
        ensures
            exists|
                found: Result<Vec<JobRow>, DatabaseFailure>,
                stored: Result<Vec<Job>, StoreError>,
            |
                #[trigger] jobs_with_prefix(*self, prefix@, limit, found, stored) && reported(
                    stored,
                    r,
                ),
    {
        match self.jobs_by_prefix(prefix, limit) {
            Ok(jobs) => Ok(jobs),
            Err(error) => Err(output_store_error(error.to_string().as_str())),
        }
    }

    fn stdout_truncated(&self, run_id: RunId) -> (r: Result<bool, RunOutputStoreError>)
        ensures
            exists|
                found: Result<Option<(bool, bool)>, DatabaseFailure>,
                flags: Result<(bool, bool), RunOutputStoreError>,
            |
                {
                    &&& #[trigger] ran_truncation(self.connection.state(), id_text(run_id@), found)
                    &&& #[trigger] flags_read(found, flags)
                    &&& r == match flags {
                        Ok((stdout, _)) => Ok::<bool, RunOutputStoreError>(stdout),
                        Err(error) => Err::<bool, RunOutputStoreError>(error),
                    }
                },
    {
        match self.truncation_flags(run_id) {
            Ok((stdout, _)) => Ok(stdout),
            Err(error) => Err(error),
        }
    }

    fn stderr_truncated(&self, run_id: RunId) -> (r: Result<bool, RunOutputStoreError>)
        ensures
            exists|
                found: Result<Option<(bool, bool)>, DatabaseFailure>,
                flags: Result<(bool, bool), RunOutputStoreError>,
            |
                {
                    &&& #[trigger] ran_truncation(self.connection.state(), id_text(run_id@), found)
                    &&& #[trigger] flags_read(found, flags)
                    &&& r == match flags {
                        Ok((_, stderr)) => Ok::<bool, RunOutputStoreError>(stderr),
                        Err(error) => Err::<bool, RunOutputStoreError>(error),
                    }
                },
    {
        match self.truncation_flags(run_id) {
            Ok((_, stderr)) => Ok(stderr),
            Err(error) => Err(error),
        }
    }
}

} // verus!
