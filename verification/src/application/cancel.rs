//! Cancellation application service.
use vstd::prelude::*;

use crate::domain::id::RunId;
use crate::domain::run::{ClaimToken, Run, RunModel};
use crate::domain::state::RunState;
use crate::text::push_text;

verus! {

/// Why the store failed during a cancellation.
#[derive(Debug, PartialEq, Eq)]
pub struct CancellationStoreError(pub String);

/// Why a process group could not be stopped.
#[derive(Debug, PartialEq, Eq)]
pub struct ProcessCancellationError(pub String);

/// How a process group ended.
#[derive(Clone, Copy, Debug, PartialEq, Eq, Structural)]
pub enum GroupCancellation {
    AlreadyDead,
    IdentityChanged,
    TerminatedDuringGrace,
    KilledAfterGrace,
}

/// Where runs are kept.
pub trait CancellationStore {
    fn load_for_cancellation(&self, id: RunId) -> Result<Option<Run>, CancellationStoreError>;

    /// A run that comes back has its cancellation requested, unless it ended before.
    fn commit_cancellation(&mut self, id: RunId, claim_token: ClaimToken) -> (r: Result<
        Run,
        CancellationStoreError,
    >)
        ensures
            r matches Ok(run) ==> may_be_signalled(run@),
    ;
}

/// The cancellation of the run was requested, or it has ended.
pub open spec fn may_be_signalled(run: RunModel) -> bool {
    run.state == RunState::CancelRequested || run.state.terminal()
}

/// Stops the process group of a run.
pub trait ProcessGroupCanceller {
    /// Only a run whose command has an identity may be signalled, and only once its cancellation
    /// was requested.
    fn cancel_group(&mut self, run: &Run) -> Result<GroupCancellation, ProcessCancellationError>
        requires
            run@.command_identity is Some,
            may_be_signalled(run@),
    ;
}

/// What came of cancelling a run.
pub enum CancelRunResult {
    /// The run had ended before.
    AlreadyTerminal(Run),
    /// The request was recorded before a command was started.
    CommittedBeforeSpawn(Run),
    /// The request was recorded and then the command was signalled.
    Signalled { run: Run, result: GroupCancellation },
}

/// Why a run was not cancelled.
#[derive(Debug, PartialEq, Eq)]
pub enum CancelRunError {
    NotFound,
    InvalidClaim,
    Store(CancellationStoreError),
    Process(ProcessCancellationError),
}

/// The message of a cancellation error.
pub open spec fn cancel_run_message(error: CancelRunError) -> Seq<char> {
    match error {
        CancelRunError::NotFound => "run was not found"@,
        CancelRunError::InvalidClaim => "run claim token did not match"@,
        CancelRunError::Store(inner) => "cancellation storage failed: "@ + inner.0@,
        CancelRunError::Process(inner) => "process-group cancellation failed: "@ + inner.0@,
    }
}

impl CancelRunError {
    /// The error as a message.
    pub fn to_string(&self) -> (text: String)
        ensures
            text@ == cancel_run_message(*self),
    {
        match self {
            CancelRunError::NotFound => "run was not found".to_owned(),
            CancelRunError::InvalidClaim => "run claim token did not match".to_owned(),
            CancelRunError::Store(inner) => {
                let mut out: String = "cancellation storage failed: ".to_owned();
                push_text(&mut out, inner.0.as_str());
                out
            },
            CancelRunError::Process(inner) => {
                let mut out: String = "process-group cancellation failed: ".to_owned();
                push_text(&mut out, inner.0.as_str());
                out
            },
        }
    }
}

/// What follows once the run was looked up.
pub enum AfterLoad {
    /// Nothing is left to do.
    Done(Result<CancelRunResult, CancelRunError>),
    /// The request is to be recorded.
    Commit,
}

/// What follows once the request was recorded.
pub enum AfterCommit {
    /// Nothing is left to do.
    Done(Result<CancelRunResult, CancelRunError>),
    /// The command is to be signalled.
    Signal(Run),
}

/// Decides on the run that the store found: it must be there and claimed with the token, and is
/// left alone if it has ended.
pub fn after_load(
    found: Result<Option<Run>, CancellationStoreError>,
    claim_token: ClaimToken,
) -> (r: AfterLoad)
    ensures
        match found {
            Err(error) => r == AfterLoad::Done(Err(CancelRunError::Store(error))),
            Ok(None) => r == AfterLoad::Done(Err(CancelRunError::NotFound)),
            Ok(Some(run)) => if run@.claim_token != claim_token@ {
                r == AfterLoad::Done(Err(CancelRunError::InvalidClaim))
            } else if run@.state.terminal() {
                r == AfterLoad::Done(Ok(CancelRunResult::AlreadyTerminal(run)))
            } else {
                r == AfterLoad::Commit
            },
        },
{
    match found {
        Err(error) => AfterLoad::Done(Err(CancelRunError::Store(error))),
        Ok(None) => AfterLoad::Done(Err(CancelRunError::NotFound)),
        Ok(Some(run)) => {
            if !run.claim_token().same(&claim_token) {
                return AfterLoad::Done(Err(CancelRunError::InvalidClaim));
            }
            if run.state().is_terminal() {
                return AfterLoad::Done(Ok(CancelRunResult::AlreadyTerminal(run)));
            }
            AfterLoad::Commit
        },
    }
}

/// Decides on the recorded request: only a command that was started is signalled.
pub fn after_commit(committed: Result<Run, CancellationStoreError>) -> (r: AfterCommit)
    ensures
        match committed {
            Err(error) => r == AfterCommit::Done(Err(CancelRunError::Store(error))),
            Ok(run) => if run@.command_identity is None {
                r == AfterCommit::Done(Ok(CancelRunResult::CommittedBeforeSpawn(run)))
            } else {
                r == AfterCommit::Signal(run)
            },
        },
{
    match committed {
        Err(error) => AfterCommit::Done(Err(CancelRunError::Store(error))),
        Ok(run) => {
            if run.command_identity().is_none() {
                AfterCommit::Done(Ok(CancelRunResult::CommittedBeforeSpawn(run)))
            } else {
                AfterCommit::Signal(run)
            }
        },
    }
}

/// What came of signalling the command.
pub fn after_signal(
    run: Run,
    signalled: Result<GroupCancellation, ProcessCancellationError>,
) -> (r: Result<CancelRunResult, CancelRunError>)
    ensures
        r == match signalled {
            Ok(result) => Ok::<CancelRunResult, CancelRunError>(
                CancelRunResult::Signalled { run, result },
            ),
            Err(error) => Err(CancelRunError::Process(error)),
        },
{
    match signalled {
        Ok(result) => Ok(CancelRunResult::Signalled { run, result }),
        Err(error) => Err(CancelRunError::Process(error)),
    }
}

/// What came back while a run is cancelled.
pub struct CancelAnswers {
    pub found: Result<Option<Run>, CancellationStoreError>,
    pub committed: Result<Run, CancellationStoreError>,
    pub signalled: Result<GroupCancellation, ProcessCancellationError>,
}

impl CancelAnswers {
    /// The request is recorded: the run is there, claimed with the token, and has not ended.
    pub open spec fn commits(self, claim_token: ClaimToken) -> bool {
        self.found matches Ok(Some(run)) && run@.claim_token == claim_token@
            && !run@.state.terminal()
    }

    /// The command is signalled: the request was recorded, and the command was started.
    pub open spec fn signals(self, claim_token: ClaimToken) -> bool {
        self.commits(claim_token) && (self.committed matches Ok(run)
            && run@.command_identity is Some)
    }
}

/// What cancelling a claimed run gives with the answers: a run that is missing, claimed by someone
/// else or ended is left alone.
pub open spec fn cancelled_as(claim_token: ClaimToken, answers: CancelAnswers) -> Result<
    CancelRunResult,
    CancelRunError,
> {
    match answers.found {
        Err(error) => Err(CancelRunError::Store(error)),
        Ok(None) => Err(CancelRunError::NotFound),
        Ok(Some(run)) => if run@.claim_token != claim_token@ {
            Err(CancelRunError::InvalidClaim)
        } else if run@.state.terminal() {
            Ok(CancelRunResult::AlreadyTerminal(run))
        } else {
            match answers.committed {
                Err(error) => Err(CancelRunError::Store(error)),
                Ok(recorded) => if recorded@.command_identity is None {
                    Ok(CancelRunResult::CommittedBeforeSpawn(recorded))
                } else {
                    match answers.signalled {
                        Ok(result) => Ok(CancelRunResult::Signalled { run: recorded, result }),
                        Err(error) => Err(CancelRunError::Process(error)),
                    }
                },
            }
        },
    }
}

/// Cancels a claimed run. The request is recorded once, and only then is the command signalled, once
/// and as the run that was recorded. A run that is missing, claimed by someone else or ended changes
/// nothing.
pub fn cancel_claimed_run<Store: CancellationStore, Canceller: ProcessGroupCanceller>(
    store: &mut Store,
    canceller: &mut Canceller,
    id: RunId,
    claim_token: ClaimToken,
) -> (r: Result<CancelRunResult, CancelRunError>)
    ensures
        exists|answers: CancelAnswers|
            {
                &&& r == #[trigger] cancelled_as(claim_token, answers)
                &&& call_ensures(Store::load_for_cancellation, (&*old(store), id), answers.found)
                &&& if answers.commits(claim_token) {
                    &&& answers.committed matches Ok(run) ==> may_be_signalled(run@)
                    &&& exists|at: &mut Store|
                        {
                            &&& #[trigger] call_ensures(
                                Store::commit_cancellation,
                                (at, id, claim_token),
                                answers.committed,
                            )
                            &&& *at == *old(store)
                            &&& *final(at) == *final(store)
                        }
                } else {
                    *final(store) == *old(store)
                }
                &&& if answers.signals(claim_token) {
                    exists|by: &mut Canceller|
                        {
                            &&& #[trigger] call_ensures(
                                Canceller::cancel_group,
                                (by, &answers.committed->Ok_0),
                                answers.signalled,
                            )
                            &&& *by == *old(canceller)
                            &&& *final(by) == *final(canceller)
                        }
                } else {
                    *final(canceller) == *old(canceller)
                }
            },
{
    let ghost mut answers: CancelAnswers = arbitrary();
    let found: Result<Option<Run>, CancellationStoreError> = store.load_for_cancellation(id);
    proof {
        answers.found = found;
    }
    match after_load(found, claim_token) {
        AfterLoad::Done(result) => {
            assert(result == cancelled_as(claim_token, answers));
            return result;
        },
        AfterLoad::Commit => {},
    }
    let committed: Result<Run, CancellationStoreError> = store.commit_cancellation(id, claim_token);
    proof {
        answers.committed = committed;
    }
    match after_commit(committed) {
        AfterCommit::Done(result) => {
            assert(result == cancelled_as(claim_token, answers));
            result
        },
        AfterCommit::Signal(run) => {
            let signalled: Result<GroupCancellation, ProcessCancellationError> =
                canceller.cancel_group(&run);
            proof {
                answers.signalled = signalled;
            }
            let r: Result<CancelRunResult, CancelRunError> = after_signal(run, signalled);
            assert(r == cancelled_as(claim_token, answers));
            r
        },
    }
}

} // verus!
