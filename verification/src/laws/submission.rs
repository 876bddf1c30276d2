//! What a submission saves, and who is told.
use crate::application::submit::{
    committed_outcome, submit_job, SubmissionOutcome, SubmissionStore, SubmissionStoreError,
    SubmitError, SupervisorAckError, SupervisorAcknowledger,
};
use crate::domain::job::Job;
use vstd::prelude::*;

verus! {

/// A saved job stays saved whether or not the supervisor answers, and the outcome says which.
pub proof fn lemma_missing_answer_does_not_undo(
    job: Job,
    answer: Result<(), SupervisorAckError>,
    r: SubmissionOutcome,
)
    requires
        call_ensures(committed_outcome, (job, answer), r),
    ensures
        match r {
            SubmissionOutcome::Supervised(kept) => kept == job && answer is Ok,
            SubmissionOutcome::CommittedUnsupervised { job: kept, error } => kept == job && answer
                == Err::<(), SupervisorAckError>(error),
            SubmissionOutcome::DryRun(_) => false,
        },
{
}

/// A dry run saves nothing and tells nobody. Otherwise the job is saved first, and the supervisor is told
/// of a saved job only, by its identifier and revision.
pub proof fn lemma_job_is_saved_before_it_is_announced<
    Store: SubmissionStore,
    Acknowledger: SupervisorAcknowledger,
>(
    store_before: Store,
    store_after: Store,
    told_before: Acknowledger,
    told_after: Acknowledger,
    job: Job,
    dry_run: bool,
    r: Result<SubmissionOutcome, SubmitError>,
)
    requires
        exists|store: &mut Store, acknowledger: &mut Acknowledger|
            {
                &&& #[trigger] call_ensures(
                    submit_job::<Store, Acknowledger>,
                    (store, acknowledger, job, dry_run),
                    r,
                )
                &&& *store == store_before
                &&& *final(store) == store_after
                &&& *acknowledger == told_before
                &&& *final(acknowledger) == told_after
            },
    ensures
        dry_run <==> r matches Ok(SubmissionOutcome::DryRun(_)),
        r matches Ok(SubmissionOutcome::DryRun(kept)) ==> kept == job && store_after == store_before
            && told_after == told_before,
        r matches Ok(SubmissionOutcome::Supervised(kept)) ==> {
            &&& kept == job
            &&& exists|at: &mut Store, saved: Result<(), SubmissionStoreError>|
                {
                    &&& #[trigger] call_ensures(Store::create_job, (at, &job), saved)
                    &&& saved is Ok
                    &&& *at == store_before
                    &&& *final(at) == store_after
                }
            &&& exists|to: &mut Acknowledger, told: Result<(), SupervisorAckError>|
                {
                    &&& #[trigger] call_ensures(
                        Acknowledger::acknowledge,
                        (to, job@.id, job@.revision),
                        told,
                    )
                    &&& told is Ok
                    &&& *to == told_before
                    &&& *final(to) == told_after
                }
        },
        r matches Ok(SubmissionOutcome::CommittedUnsupervised { job: kept, error }) ==> {
            &&& kept == job
            &&& exists|at: &mut Store, saved: Result<(), SubmissionStoreError>|
                {
                    &&& #[trigger] call_ensures(Store::create_job, (at, &job), saved)
                    &&& saved is Ok
                    &&& *at == store_before
                    &&& *final(at) == store_after
                }
            &&& exists|to: &mut Acknowledger, told: Result<(), SupervisorAckError>|
                {
                    &&& #[trigger] call_ensures(
                        Acknowledger::acknowledge,
                        (to, job@.id, job@.revision),
                        told,
                    )
                    &&& told matches Err(reason) && reason == error
                    &&& *to == told_before
                    &&& *final(to) == told_after
                }
        },
        r matches Err(SubmitError::Store(error)) ==> {
            &&& exists|at: &mut Store, saved: Result<(), SubmissionStoreError>|
                {
                    &&& #[trigger] call_ensures(Store::create_job, (at, &job), saved)
                    &&& saved matches Err(reason) && reason == error
                    &&& *at == store_before
                    &&& *final(at) == store_after
                }
            &&& told_after == told_before
        },
{
}

} // verus!
