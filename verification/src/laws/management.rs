//! How jobs are found, listed, removed and run again.
use crate::application::list::{
    check_removal, check_rerun, from_store, identifier_byte, is_completed_run, is_valid_prefix,
    job_named, list_jobs, list_runs, only_job, remove_job, rerun_job, resolve_job, resolved_as,
    shown_runs, validate_limit, ManagementError, ManagementStore, ManagementStoreError,
};
use crate::domain::id::{id_text, lemma_id_round_trip, symbol_digit, JobId};
use crate::domain::job::{Job, JobModel};
use crate::domain::primitives::UtcTimestamp;
use crate::domain::run::Run;
use crate::domain::state::JobState;
use super::lifecycle::ended;
use vstd::prelude::*;

verus! {

broadcast use vstd::seq::group_seq_axioms;

/// The job is done.
pub open spec fn is_done(job: JobModel) -> bool {
    ||| job.state == JobState::Succeeded
    ||| job.state == JobState::Failed
    ||| job.state == JobState::Cancelled
    ||| job.state == JobState::Interrupted
    ||| job.state == JobState::Missed
}

/// Between one and a thousand results may be asked for.
pub proof fn lemma_results_are_limited(limit: usize, r: Result<(), ManagementError>)
    requires
        call_ensures(validate_limit, (limit,), r),
    ensures
        r is Ok <==> 1 <= limit <= 1000,
        r matches Err(error) ==> error is InvalidLimit,
{
}

/// A prefix names a job only where it is the only one with it.
pub proof fn lemma_only_match_is_taken(found: Vec<Job>, r: Result<Job, ManagementError>)
    requires
        call_ensures(only_job, (found,), r),
    ensures
        match r {
            Ok(job) => found@ == seq![job],
            Err(ManagementError::NotFound) => found@.len() == 0,
            Err(ManagementError::Ambiguous(ids)) => found@.len() > 1 && ids@.len() == found@.len()
                && forall|i: int| 0 <= i < ids@.len() ==> #[trigger] ids@[i] == found@[i]@.id,
            _ => false,
        },
{
    if found@.len() == 1 {
        assert(found@ =~= seq![found@[0]]);
    }
}

/// A job is looked for among those that the store finds for the prefix; two of them are enough to see
/// that it names no single one.
pub proof fn lemma_job_is_looked_up_by_its_prefix<Store: ManagementStore>(
    store: &Store,
    prefix: &str,
    job: Job,
)
    requires
        call_ensures(resolve_job::<Store>, (store, prefix), Ok::<Job, ManagementError>(job)),
    ensures
        exists|text: &str, found: Vec<Job>|
            {
                &&& #[trigger] call_ensures(
                    Store::find_jobs_by_prefix,
                    (store, text, 2usize),
                    Ok::<Vec<Job>, ManagementStoreError>(found),
                )
                &&& text@ == prefix@
                &&& found@ == seq![job]
            },
{
    let (text, found) = choose|text: &str, found: Result<Vec<Job>, ManagementStoreError>|
        {
            &&& #[trigger] call_ensures(Store::find_jobs_by_prefix, (store, text, 2usize), found)
            &&& text@ == prefix@
            &&& resolved_as(found, Ok::<Job, ManagementError>(job))
        };
    assert(found is Ok);
    assert(found == Ok::<Vec<Job>, ManagementStoreError>(found->Ok_0));
    assert(found->Ok_0@ =~= seq![job]);
}

/// Only a job that is done may be removed.
pub proof fn lemma_only_done_jobs_are_removed(job: &Job, r: Result<(), ManagementError>)
    requires
        call_ensures(check_removal, (job,), r),
    ensures
        r is Ok <==> is_done(job@),
        r matches Err(error) ==> error == ManagementError::StateConflict(
            "only terminal jobs can be removed",
        ),
{
}

/// Only a job that is done may be run again, and one whose outcome is not known only on confirmation.
pub proof fn lemma_unknown_outcomes_are_not_run_again_unasked(
    job: &Job,
    confirmed: bool,
    r: Result<(), ManagementError>,
)
    requires
        call_ensures(check_rerun, (job, confirmed), r),
    ensures
        r is Ok <==> is_done(job@) && (job@.state == JobState::Interrupted ==> confirmed),
        r matches Err(error) ==> if is_done(job@) {
            error == ManagementError::ConfirmationRequired
        } else {
            error == ManagementError::StateConflict("only terminal jobs can be run again")
        },
{
}

/// Removing a job hides the one that the prefix names, at the revision that was read and with its history
/// kept or not as asked; where the prefix names none, or one that is not done, nothing changes.
pub proof fn lemma_removal_hides_the_named_job<Store: ManagementStore>(
    before: Store,
    after: Store,
    prefix: &str,
    keep_history: bool,
    r: Result<Job, ManagementError>,
)
    requires
        exists|at: &mut Store|
            {
                &&& #[trigger] call_ensures(remove_job::<Store>, (at, prefix, keep_history), r)
                &&& *at == before
                &&& *final(at) == after
            },
    ensures
        exists|named: Result<Job, ManagementError>|
            {
                &&& #[trigger] job_named(before, prefix@, named)
                &&& match named {
                    Err(error) => r == Err::<Job, ManagementError>(error) && after == before,
                    Ok(job) => if !is_done(job@) {
                        r == Err::<Job, ManagementError>(
                            ManagementError::StateConflict("only terminal jobs can be removed"),
                        ) && after == before
                    } else {
                        exists|at: &mut Store, changed: Result<Job, ManagementStoreError>|
                            {
                                &&& #[trigger] call_ensures(
                                    Store::hide_job,
                                    (at, job@.id, job@.revision, keep_history),
                                    changed,
                                )
                                &&& *at == before
                                &&& *final(at) == after
                                &&& match changed {
                                    Ok(hidden) => r == Ok::<Job, ManagementError>(hidden),
                                    Err(error) => r == Err::<Job, ManagementError>(
                                        ManagementError::Store(error),
                                    ),
                                }
                            }
                    },
                }
            },
{
}

/// Running a job again makes the one that the prefix names wait once more, at the revision that was read;
/// where that is refused, nothing changes.
pub proof fn lemma_rerun_requeues_the_named_job<Store: ManagementStore>(
    before: Store,
    after: Store,
    prefix: &str,
    confirmed: bool,
    now: UtcTimestamp,
    r: Result<Job, ManagementError>,
)
    requires
        exists|at: &mut Store|
            {
                &&& #[trigger] call_ensures(rerun_job::<Store>, (at, prefix, confirmed, now), r)
                &&& *at == before
                &&& *final(at) == after
            },
    ensures
        exists|named: Result<Job, ManagementError>|
            {
                &&& #[trigger] job_named(before, prefix@, named)
                &&& match named {
                    Err(error) => r == Err::<Job, ManagementError>(error) && after == before,
                    Ok(job) => if !is_done(job@) {
                        r == Err::<Job, ManagementError>(
                            ManagementError::StateConflict("only terminal jobs can be run again"),
                        ) && after == before
                    } else if job@.state == JobState::Interrupted && !confirmed {
                        r == Err::<Job, ManagementError>(ManagementError::ConfirmationRequired)
                            && after == before
                    } else {
                        exists|at: &mut Store, changed: Result<Job, ManagementStoreError>|
                            {
                                &&& #[trigger] call_ensures(
                                    Store::prepare_rerun,
                                    (at, job@.id, job@.revision, now),
                                    changed,
                                )
                                &&& *at == before
                                &&& *final(at) == after
                                &&& match changed {
                                    Ok(queued) => r == Ok::<Job, ManagementError>(queued),
                                    Err(error) => r == Err::<Job, ManagementError>(
                                        ManagementError::Store(error),
                                    ),
                                }
                            }
                    },
                }
            },
{
}

/// Jobs are listed as the store gives them, for the state and from the place that were asked for.
pub proof fn lemma_jobs_are_listed_as_stored<Store: ManagementStore>(
    store: &Store,
    state: Option<JobState>,
    after: Option<JobId>,
    limit: usize,
    r: Result<Vec<Job>, ManagementError>,
)
    requires
        call_ensures(list_jobs::<Store>, (store, state, after, limit), r),
    ensures
        match r {
            Ok(jobs) => 1 <= limit <= 1000 && call_ensures(
                Store::list_jobs,
                (store, state, after, limit),
                Ok::<Vec<Job>, ManagementStoreError>(jobs),
            ),
            Err(ManagementError::InvalidLimit) => !(1 <= limit <= 1000),
            Err(ManagementError::Store(error)) => call_ensures(
                Store::list_jobs,
                (store, state, after, limit),
                Err::<Vec<Job>, ManagementStoreError>(error),
            ),
            _ => false,
        },
{
    if 1 <= limit <= 1000 {
        let found = choose|found: Result<Vec<Job>, ManagementStoreError>|
            {
                &&& #[trigger] call_ensures(Store::list_jobs, (store, state, after, limit), found)
                &&& r == from_store(found)
            };
        assert(call_ensures(Store::list_jobs, (store, state, after, limit), found));
    }
}

/// The history shows runs that have ended, of the job where one is asked for, and no more than the limit;
/// where all that was found may be shown, all of it is, in the order in which it was found.
pub proof fn lemma_history_shows_ended_runs<Store: ManagementStore>(
    store: &Store,
    job_id: Option<JobId>,
    limit: usize,
    r: Result<Vec<Run>, ManagementError>,
)
    requires
        call_ensures(list_runs::<Store>, (store, job_id, limit), r),
    ensures
        !(1 <= limit <= 1000) ==> r == Err::<Vec<Run>, ManagementError>(
            ManagementError::InvalidLimit,
        ),
        r matches Ok(shown) ==> {
            &&& 1 <= limit <= 1000
            &&& shown@.len() <= limit
            &&& forall|i: int|
                0 <= i < shown@.len() ==> ended((#[trigger] shown@[i])@.state) && (job_id
                    matches Some(id) ==> shown@[i]@.job_id == id)
            &&& exists|found: Vec<Run>|
                {
                    &&& #[trigger] call_ensures(
                        Store::list_runs,
                        (store, job_id, limit),
                        Ok::<Vec<Run>, ManagementStoreError>(found),
                    )
                    &&& found@.len() <= limit && (forall|i: int|
                        0 <= i < found@.len() ==> ended((#[trigger] found@[i])@.state) && (job_id
                            matches Some(id) ==> found@[i]@.job_id == id)) ==> shown@ == found@
                }
        },
{
    if let Ok(shown) = r {
        let answer = choose|answer: Result<Vec<Run>, ManagementStoreError>|
            {
                &&& #[trigger] call_ensures(Store::list_runs, (store, job_id, limit), answer)
                &&& answer matches Ok(runs) && shown@ == shown_runs(
                    runs@,
                    job_id,
                    limit,
                )
            };
        let found = answer->Ok_0;
        assert(answer == Ok::<Vec<Run>, ManagementStoreError>(found));
        let keeps = |run: Run| is_completed_run(run@, job_id);
        if found@.len() <= limit && (forall|i: int|
            0 <= i < found@.len() ==> ended((#[trigger] found@[i])@.state) && (job_id matches Some(
                id,
            ) ==> found@[i]@.job_id == id)) {
            lemma_nothing_filtered(found@, keeps);
        }
    }
}

proof fn lemma_nothing_filtered(runs: Seq<Run>, keeps: spec_fn(Run) -> bool)
    requires
        forall|i: int| 0 <= i < runs.len() ==> keeps(#[trigger] runs[i]),
    ensures
        runs.filter(keeps) == runs,
    decreases runs.len(),
{
    reveal(Seq::filter);
    if runs.len() == 0 {
        assert(runs.filter(keeps) =~= runs);
    } else {
        let fewer = runs.drop_last();
        assert forall|i: int| 0 <= i < fewer.len() implies keeps(#[trigger] fewer[i]) by {
            assert(fewer[i] == runs[i]);
        }
        lemma_nothing_filtered(fewer, keeps);
        assert(keeps(runs[runs.len() - 1]));
        assert(runs.filter(keeps) =~= runs);
    }
}

proof fn lemma_symbol_is_an_identifier_byte(symbol: char)
    requires
        symbol_digit(symbol) is Some,
    ensures
        (symbol as u32) < 128,
        identifier_byte(symbol as u8),
{
    let code = symbol as u32;
    assert(code < 128);
    assert((code as u8) as char == symbol);
}

/// Whatever starts the text of an identifier may be asked for, in either case; nothing longer than an
/// identifier may, and nothing empty.
pub proof fn lemma_start_of_an_identifier_is_a_prefix(
    prefix: &str,
    r: bool,
    id: u128,
    length: int,
)
    requires
        call_ensures(is_valid_prefix, (prefix,), r),
    ensures
        1 <= length <= 26 && prefix@ == id_text(id).take(length) ==> r,
        prefix@.len() == 0 || prefix@.len() > 26 ==> !r,
        prefix@.contains('-') || prefix@.contains('i') || prefix@.contains('l') || prefix@.contains(
            'o',
        ) || prefix@.contains('u') ==> !r,
{
    lemma_id_round_trip(id);
    let text = id_text(id);
    if 1 <= length <= 26 && prefix@ == text.take(length) {
        assert forall|i: int| 0 <= i < prefix@.len() implies (#[trigger] prefix@[i] as u32) < 128
            && identifier_byte(prefix@[i] as u8) by {
            assert(prefix@[i] == text[i]);
            assert(symbol_digit(text[i]) is Some);
            lemma_symbol_is_an_identifier_byte(text[i]);
        }
    }
}

} // verus!
