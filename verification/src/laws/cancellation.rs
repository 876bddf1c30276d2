//! What is done before and after a run is cancelled.
use crate::application::cancel::{
    after_commit, after_load, cancel_claimed_run, AfterCommit, AfterLoad, CancelRunError,
    CancelRunResult, CancellationStore, CancellationStoreError, GroupCancellation,
    ProcessCancellationError, ProcessGroupCanceller,
};
use crate::domain::id::RunId;
use crate::domain::run::{ClaimToken, Run};
use crate::domain::state::RunState;
use super::lifecycle::ended;
use vstd::prelude::*;

verus! {

/// A cancellation goes on only for a run that is there, is claimed with the token, and has not ended.
pub proof fn lemma_only_the_claimed_run_is_cancelled(
    found: Result<Option<Run>, CancellationStoreError>,
    token: ClaimToken,
    r: AfterLoad,
)
    requires
        call_ensures(after_load, (found, token), r),
    ensures
        r is Commit <==> (found matches Ok(Some(run)) && run@.claim_token == token@ && !ended(
            run@.state,
        )),
        r matches AfterLoad::Done(result) ==> match result {
            Ok(CancelRunResult::AlreadyTerminal(run)) => found == Ok::<
                Option<Run>,
                CancellationStoreError,
            >(Some(run)) && ended(run@.state) && run@.claim_token == token@,
            Err(CancelRunError::NotFound) => found == Ok::<Option<Run>, CancellationStoreError>(
                None,
            ),
            Err(CancelRunError::InvalidClaim) => found matches Ok(Some(run)) && run@.claim_token
                != token@,
            Err(CancelRunError::Store(error)) => found == Err::<
                Option<Run>,
                CancellationStoreError,
            >(error),
            _ => false,
        },
{
}

/// A recorded request is followed by a signal exactly where the command was started.
pub proof fn lemma_only_started_commands_are_signalled(
    committed: Result<Run, CancellationStoreError>,
    r: AfterCommit,
)
    requires
        call_ensures(after_commit, (committed,), r),
    ensures
        match committed {
            Ok(run) => if run@.command_identity is Some {
                r == AfterCommit::Signal(run)
            } else {
                r == AfterCommit::Done(Ok(CancelRunResult::CommittedBeforeSpawn(run)))
            },
            Err(error) => r == AfterCommit::Done(Err(CancelRunError::Store(error))),
        },
{
}

/// Nothing is signalled before the request was recorded: where the command is signalled, the store had
/// recorded the request for the claimed run, and the result says how that went.
pub proof fn lemma_request_is_recorded_before_the_signal<
    Store: CancellationStore,
    Canceller: ProcessGroupCanceller,
>(
    store_before: Store,
    store_after: Store,
    canceller_before: Canceller,
    canceller_after: Canceller,
    id: RunId,
    token: ClaimToken,
    r: Result<CancelRunResult, CancelRunError>,
)
    requires
        exists|store: &mut Store, canceller: &mut Canceller|
            {
                &&& #[trigger] call_ensures(
                    cancel_claimed_run::<Store, Canceller>,
                    (store, canceller, id, token),
                    r,
                )
                &&& *store == store_before
                &&& *final(store) == store_after
                &&& *canceller == canceller_before
                &&& *final(canceller) == canceller_after
            },
    ensures
        r matches Ok(CancelRunResult::Signalled { run, result }) ==> {
            &&& run@.command_identity is Some
            &&& run@.state == RunState::CancelRequested || ended(run@.state)
            &&& exists|at: &mut Store|
                {
                    &&& #[trigger] call_ensures(
                        Store::commit_cancellation,
                        (at, id, token),
                        Ok::<Run, CancellationStoreError>(run),
                    )
                    &&& *at == store_before
                    &&& *final(at) == store_after
                }
            &&& exists|by: &mut Canceller|
                {
                    &&& #[trigger] call_ensures(
                        Canceller::cancel_group,
                        (by, &run),
                        Ok::<GroupCancellation, ProcessCancellationError>(result),
                    )
                    &&& *by == canceller_before
                    &&& *final(by) == canceller_after
                }
        },
        r matches Ok(CancelRunResult::CommittedBeforeSpawn(run)) ==> {
            &&& run@.command_identity is None
            &&& canceller_after == canceller_before
            &&& exists|at: &mut Store|
                {
                    &&& #[trigger] call_ensures(
                        Store::commit_cancellation,
                        (at, id, token),
                        Ok::<Run, CancellationStoreError>(run),
                    )
                    &&& *at == store_before
                    &&& *final(at) == store_after
                }
        },
        r matches Ok(CancelRunResult::AlreadyTerminal(run)) ==> {
            &&& ended(run@.state) && run@.claim_token == token@
            &&& store_after == store_before
            &&& canceller_after == canceller_before
        },
        r matches Err(CancelRunError::NotFound) ==> store_after == store_before && canceller_after
            == canceller_before,
        r matches Err(CancelRunError::InvalidClaim) ==> store_after == store_before
            && canceller_after == canceller_before,
{
}

} // verus!
