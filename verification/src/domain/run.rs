//! Run aggregate.
use vstd::prelude::*;

use super::execution::{copy_optional_text, optional_text};
use super::id::{is_fresh, JobId, RunId};
use super::primitives::{Sequence, UtcTimestamp};
use super::state::RunState;
use crate::path_text::{path_stays_below, stays_below};
use crate::text::{contains_char, copy_text};

verus! {

broadcast use vstd::seq::group_seq_axioms;

/// The secret that shows who claimed a run.
#[derive(Clone, Copy, PartialEq, Eq)]
pub struct ClaimToken([u8; 32]);

impl View for ClaimToken {
    type V = Seq<u8>;

    closed spec fn view(&self) -> Seq<u8> {
        self.0@
    }
}

impl ClaimToken {
    /// The token of the given bytes.
    pub fn from_bytes(bytes: [u8; 32]) -> (r: ClaimToken)
        ensures
            r@ == bytes@,
    {
        ClaimToken(bytes)
    }

    /// The bytes of the token.
    pub fn as_bytes(&self) -> (r: &[u8; 32])
        ensures
            r@ == self@,
    {
        &self.0
    }

    /// Whether both are the same token.
    pub fn same(&self, other: &ClaimToken) -> (r: bool)
        ensures
            r == (self@ == other@),
    {
        let mut index: usize = 0;
        while index < 32
            invariant
                index <= 32,
                self.0@.len() == 32,
                other.0@.len() == 32,
                forall|i: int| 0 <= i < index ==> self.0@[i] == other.0@[i],
            decreases 32 - index,
        {
            if self.0[index] != other.0[index] {
                assert(self@[index as int] != other@[index as int]);
                return false;
            }
            index += 1;
        }
        assert(self@ =~= other@);
        true
    }

    /// What is shown in place of the token.
    pub fn to_string(&self) -> (text: String)
        ensures
            text@ == "[REDACTED]"@,
    {
        "[REDACTED]".to_owned()
    }
}

/// How a run ended.
#[derive(Debug, PartialEq, Eq)]
pub enum RunOutcome {
    /// The command exited with this status.
    Exit(i32),
    /// A signal ended the command.
    Signal(i32),
    /// The command could not be run.
    Failure(String),
    /// The end of the command was not seen.
    Interrupted(String),
    /// The run was cancelled.
    Cancelled(String),
}

/// An outcome with its text as a character sequence.
pub enum OutcomeModel {
    Exit(i32),
    Signal(i32),
    Failure(Seq<char>),
    Interrupted(Seq<char>),
    Cancelled(Seq<char>),
}

impl View for RunOutcome {
    type V = OutcomeModel;

    open spec fn view(&self) -> OutcomeModel {
        match *self {
            RunOutcome::Exit(code) => OutcomeModel::Exit(code),
            RunOutcome::Signal(signal) => OutcomeModel::Signal(signal),
            RunOutcome::Failure(reason) => OutcomeModel::Failure(reason@),
            RunOutcome::Interrupted(reason) => OutcomeModel::Interrupted(reason@),
            RunOutcome::Cancelled(reason) => OutcomeModel::Cancelled(reason@),
        }
    }
}

impl Clone for RunOutcome {
    fn clone(&self) -> (r: RunOutcome)
        ensures
            r@ == self@,
    {
        match self {
            RunOutcome::Exit(code) => RunOutcome::Exit(*code),
            RunOutcome::Signal(signal) => RunOutcome::Signal(*signal),
            RunOutcome::Failure(reason) => RunOutcome::Failure(reason.clone()),
            RunOutcome::Interrupted(reason) => RunOutcome::Interrupted(reason.clone()),
            RunOutcome::Cancelled(reason) => RunOutcome::Cancelled(reason.clone()),
        }
    }
}

/// The outcome as a model.
pub open spec fn outcome_model(outcome: Option<RunOutcome>) -> Option<OutcomeModel> {
    match outcome {
        Some(inner) => Some(inner@),
        None => None,
    }
}

/// A copy of an optional outcome.
pub fn copy_outcome(outcome: &Option<RunOutcome>) -> (r: Option<RunOutcome>)
    ensures
        outcome_model(r) == outcome_model(*outcome),
{
    match outcome {
        Some(inner) => Some(inner.clone()),
        None => None,
    }
}

/// The state that an outcome leads to.
pub open spec fn state_of_outcome(outcome: OutcomeModel) -> RunState {
    match outcome {
        OutcomeModel::Exit(code) => if code == 0 {
            RunState::Succeeded
        } else {
            RunState::Failed
        },
        OutcomeModel::Signal(_) => RunState::Failed,
        OutcomeModel::Failure(_) => RunState::Failed,
        OutcomeModel::Interrupted(_) => RunState::Interrupted,
        OutcomeModel::Cancelled(_) => RunState::Cancelled,
    }
}

/// The state that an outcome leads to.
pub fn outcome_state(outcome: &RunOutcome) -> (r: RunState)
    ensures
        r == state_of_outcome(outcome@),
        r.terminal(),
{
    match outcome {
        RunOutcome::Exit(code) => {
            if *code == 0 {
                RunState::Succeeded
            } else {
                RunState::Failed
            }
        },
        RunOutcome::Signal(_) => RunState::Failed,
        RunOutcome::Failure(_) => RunState::Failed,
        RunOutcome::Interrupted(_) => RunState::Interrupted,
        RunOutcome::Cancelled(_) => RunState::Cancelled,
    }
}

/// What identifies a process beyond the reuse of its number.
#[derive(Debug, PartialEq, Eq)]
pub struct ProcessIdentitySnapshot {
    pub boot_identity: String,
    pub pid: u32,
    pub start_token: u64,
    pub process_group_id: i32,
}

/// A process identity with its text as a character sequence.
pub struct IdentityModel {
    pub boot_identity: Seq<char>,
    pub pid: u32,
    pub start_token: u64,
    pub process_group_id: i32,
}

impl View for ProcessIdentitySnapshot {
    type V = IdentityModel;

    open spec fn view(&self) -> IdentityModel {
        IdentityModel {
            boot_identity: self.boot_identity@,
            pid: self.pid,
            start_token: self.start_token,
            process_group_id: self.process_group_id,
        }
    }
}

impl Clone for ProcessIdentitySnapshot {
    fn clone(&self) -> (r: ProcessIdentitySnapshot)
        ensures
            r@ == self@,
    {
        ProcessIdentitySnapshot {
            boot_identity: copy_text(self.boot_identity.as_str()),
            pid: self.pid,
            start_token: self.start_token,
            process_group_id: self.process_group_id,
        }
    }
}

/// The identity as a model.
pub open spec fn identity_model(identity: Option<ProcessIdentitySnapshot>) -> Option<IdentityModel> {
    match identity {
        Some(inner) => Some(inner@),
        None => None,
    }
}

/// A copy of an optional identity.
pub fn copy_identity(identity: &Option<ProcessIdentitySnapshot>) -> (r: Option<
    ProcessIdentitySnapshot,
>)
    ensures
        identity_model(r) == identity_model(*identity),
{
    match identity {
        Some(inner) => Some(inner.clone()),
        None => None,
    }
}

/// The identity is complete.
pub open spec fn valid_identity(identity: IdentityModel) -> bool {
    &&& identity.boot_identity.len() > 0
    &&& !identity.boot_identity.contains('\0')
    &&& identity.pid != 0
    &&& identity.start_token != 0
    &&& identity.process_group_id > 0
}

/// Why a change of a run was refused.
#[derive(Clone, Copy, Debug, PartialEq, Eq, Structural)]
pub enum RunError {
    OutcomeAlreadyRecorded,
    FinishBeforeCreation,
    StartBeforeCreation,
    InvalidState,
    InvalidIdentity,
    InvalidLogPath,
    InvalidTimeline,
    InvalidOutcome,
}

/// The message of a run error.
pub open spec fn run_error_message(error: RunError) -> Seq<char> {
    match error {
        RunError::OutcomeAlreadyRecorded => "run outcome is already recorded"@,
        RunError::FinishBeforeCreation => "run cannot finish before it was created"@,
        RunError::StartBeforeCreation => "run cannot start before it was created"@,
        RunError::InvalidState => "run state does not allow this update"@,
        RunError::InvalidIdentity => "process identity is incomplete"@,
        RunError::InvalidLogPath => "log path must stay below the run directory"@,
        RunError::InvalidTimeline => "stored run timeline is inconsistent"@,
        RunError::InvalidOutcome => "stored run outcome does not match its state"@,
    }
}

impl RunError {
    /// The error as a message.
    pub fn to_string(&self) -> (text: String)
        ensures
            text@ == run_error_message(*self),
    {
        match self {
            RunError::OutcomeAlreadyRecorded => "run outcome is already recorded".to_owned(),
            RunError::FinishBeforeCreation => "run cannot finish before it was created".to_owned(),
            RunError::StartBeforeCreation => "run cannot start before it was created".to_owned(),
            RunError::InvalidState => "run state does not allow this update".to_owned(),
            RunError::InvalidIdentity => "process identity is incomplete".to_owned(),
            RunError::InvalidLogPath => "log path must stay below the run directory".to_owned(),
            RunError::InvalidTimeline => "stored run timeline is inconsistent".to_owned(),
            RunError::InvalidOutcome => "stored run outcome does not match its state".to_owned(),
        }
    }
}

/// Checks that an identity is complete.
pub fn validate_identity(identity: &ProcessIdentitySnapshot) -> (r: Result<(), RunError>)
    ensures
        r == if valid_identity(identity@) {
            Ok::<(), RunError>(())
        } else {
            Err(RunError::InvalidIdentity)
        },
{
    let boot: &str = identity.boot_identity.as_str();
    if boot.unicode_len() == 0 || contains_char(boot, '\0') || identity.pid == 0
        || identity.start_token == 0 || identity.process_group_id <= 0 {
        return Err(RunError::InvalidIdentity);
    }
    Ok(())
}

/// Checks that a log path stays below the state directory.
pub fn validate_log_path(path: &str) -> (r: Result<(), RunError>)
    ensures
        r == if stays_below(path@) {
            Ok::<(), RunError>(())
        } else {
            Err(RunError::InvalidLogPath)
        },
{
    if path_stays_below(path) {
        Ok(())
    } else {
        Err(RunError::InvalidLogPath)
    }
}

/// A run with its texts as character sequences.
pub struct RunModel {
    pub id: RunId,
    pub job_id: JobId,
    pub sequence: Sequence,
    pub scheduled_for_utc: UtcTimestamp,
    pub created_at_utc: UtcTimestamp,
    pub started_at_utc: Option<UtcTimestamp>,
    pub finished_at_utc: Option<UtcTimestamp>,
    pub state: RunState,
    pub claim_token: Seq<u8>,
    pub monitor_identity: Option<IdentityModel>,
    pub command_identity: Option<IdentityModel>,
    pub outcome: Option<OutcomeModel>,
    pub stdout_path: Option<Seq<char>>,
    pub stderr_path: Option<Seq<char>>,
}

/// One execution of a job's command.
#[derive(PartialEq, Eq)]
pub struct Run {
    id: RunId,
    job_id: JobId,
    sequence: Sequence,
    scheduled_for_utc: UtcTimestamp,
    created_at_utc: UtcTimestamp,
    started_at_utc: Option<UtcTimestamp>,
    finished_at_utc: Option<UtcTimestamp>,
    state: RunState,
    claim_token: ClaimToken,
    monitor_identity: Option<ProcessIdentitySnapshot>,
    command_identity: Option<ProcessIdentitySnapshot>,
    outcome: Option<RunOutcome>,
    stdout_path: Option<String>,
    stderr_path: Option<String>,
}

/// The fields of a run.
#[derive(PartialEq, Eq)]
pub struct RunSnapshot {
    pub id: RunId,
    pub job_id: JobId,
    pub sequence: Sequence,
    pub scheduled_for_utc: UtcTimestamp,
    pub created_at_utc: UtcTimestamp,
    pub started_at_utc: Option<UtcTimestamp>,
    pub finished_at_utc: Option<UtcTimestamp>,
    pub state: RunState,
    pub claim_token: ClaimToken,
    pub monitor_identity: Option<ProcessIdentitySnapshot>,
    pub command_identity: Option<ProcessIdentitySnapshot>,
    pub outcome: Option<RunOutcome>,
    pub stdout_path: Option<String>,
    pub stderr_path: Option<String>,
}

impl View for Run {
    type V = RunModel;

    closed spec fn view(&self) -> RunModel {
        RunModel {
            id: self.id,
            job_id: self.job_id,
            sequence: self.sequence,
            scheduled_for_utc: self.scheduled_for_utc,
            created_at_utc: self.created_at_utc,
            started_at_utc: self.started_at_utc,
            finished_at_utc: self.finished_at_utc,
            state: self.state,
            claim_token: self.claim_token@,
            monitor_identity: identity_model(self.monitor_identity),
            command_identity: identity_model(self.command_identity),
            outcome: outcome_model(self.outcome),
            stdout_path: optional_text(self.stdout_path),
            stderr_path: optional_text(self.stderr_path),
        }
    }
}

impl View for RunSnapshot {
    type V = RunModel;

    open spec fn view(&self) -> RunModel {
        RunModel {
            id: self.id,
            job_id: self.job_id,
            sequence: self.sequence,
            scheduled_for_utc: self.scheduled_for_utc,
            created_at_utc: self.created_at_utc,
            started_at_utc: self.started_at_utc,
            finished_at_utc: self.finished_at_utc,
            state: self.state,
            claim_token: self.claim_token@,
            monitor_identity: identity_model(self.monitor_identity),
            command_identity: identity_model(self.command_identity),
            outcome: outcome_model(self.outcome),
            stdout_path: optional_text(self.stdout_path),
            stderr_path: optional_text(self.stderr_path),
        }
    }
}

// ---------------------------------------------------------------------------------------------
// The rules
// ---------------------------------------------------------------------------------------------
/// The times of a run are in order.
pub open spec fn valid_timeline(run: RunModel) -> bool {
    &&& run.started_at_utc matches Some(started) ==> started@ >= run.created_at_utc@
    &&& run.finished_at_utc matches Some(finished) ==> finished@ >= run.created_at_utc@
    &&& run.started_at_utc matches Some(started) ==> {
        run.finished_at_utc matches Some(finished) ==> finished@ >= started@
    }
}

/// A run has an outcome and a finish time exactly once it is done, and the state is that of the
/// outcome.
pub open spec fn valid_outcome(run: RunModel) -> bool {
    &&& run.state.terminal() == run.outcome is Some
    &&& run.state.terminal() == run.finished_at_utc is Some
    &&& run.outcome matches Some(outcome) ==> state_of_outcome(outcome) == run.state
}

/// The identities that are there are complete.
pub open spec fn valid_identities(run: RunModel) -> bool {
    &&& run.monitor_identity matches Some(identity) ==> valid_identity(identity)
    &&& run.command_identity matches Some(identity) ==> valid_identity(identity)
}

/// The log paths that are there stay below the state directory.
pub open spec fn valid_log_paths(run: RunModel) -> bool {
    &&& run.stdout_path matches Some(path) ==> stays_below(path)
    &&& run.stderr_path matches Some(path) ==> stays_below(path)
}

/// What contradicts itself in the fields of a run, if anything.
pub open spec fn snapshot_fault(run: RunModel) -> Option<RunError> {
    if !valid_timeline(run) {
        Some(RunError::InvalidTimeline)
    } else if !valid_outcome(run) {
        Some(RunError::InvalidOutcome)
    } else if !valid_identities(run) {
        Some(RunError::InvalidIdentity)
    } else if !valid_log_paths(run) {
        Some(RunError::InvalidLogPath)
    } else {
        None
    }
}

/// Why a run may not be marked as running, if so.
pub open spec fn start_fault(
    run: RunModel,
    started: UtcTimestamp,
    monitor: IdentityModel,
    command: IdentityModel,
    stdout_path: Seq<char>,
    stderr_path: Seq<char>,
) -> Option<RunError> {
    if run.state != RunState::Starting {
        Some(RunError::InvalidState)
    } else if started@ < run.created_at_utc@ {
        Some(RunError::StartBeforeCreation)
    } else if !valid_identity(monitor) || !valid_identity(command) {
        Some(RunError::InvalidIdentity)
    } else if !stays_below(stdout_path) || !stays_below(stderr_path) {
        Some(RunError::InvalidLogPath)
    } else {
        None
    }
}

/// Why a run may not end so, if so.
pub open spec fn finish_fault(
    run: RunModel,
    finished: UtcTimestamp,
    outcome: OutcomeModel,
) -> Option<RunError> {
    if run.outcome is Some {
        Some(RunError::OutcomeAlreadyRecorded)
    } else if finished@ < run.created_at_utc@ {
        Some(RunError::FinishBeforeCreation)
    } else if run.state.terminal() || (outcome is Cancelled && run.state
        != RunState::CancelRequested) {
        Some(RunError::InvalidState)
    } else {
        None
    }
}

impl Run {
    /// A run that was just claimed: starting, with a fresh identifier.
    pub fn new(
        job_id: JobId,
        sequence: Sequence,
        scheduled_for_utc: UtcTimestamp,
        created_at_utc: UtcTimestamp,
        claim_token: ClaimToken,
    ) -> (r: Run)
        ensures
            is_fresh(r@.id@),
            r@ == (RunModel {
                id: r@.id,
                job_id,
                sequence,
                scheduled_for_utc,
                created_at_utc,
                started_at_utc: None,
                finished_at_utc: None,
                state: RunState::Starting,
                claim_token: claim_token@,
                monitor_identity: None,
                command_identity: None,
                outcome: None,
                stdout_path: None,
                stderr_path: None,
            }),
    {
        Run {
            id: RunId::new(),
            job_id,
            sequence,
            scheduled_for_utc,
            created_at_utc,
            started_at_utc: None,
            finished_at_utc: None,
            state: RunState::Starting,
            claim_token,
            monitor_identity: None,
            command_identity: None,
            outcome: None,
            stdout_path: None,
            stderr_path: None,
        }
    }

    pub fn outcome(&self) -> (r: Option<&RunOutcome>)
        ensures
            match r {
                Some(outcome) => self@.outcome == Some(outcome@),
                None => self@.outcome is None,
            },
    {
        match &self.outcome {
            Some(outcome) => Some(outcome),
            None => None,
        }
    }

    pub fn id(&self) -> (r: RunId)
        ensures
            r == self@.id,
    {
        self.id
    }

    pub fn job_id(&self) -> (r: JobId)
        ensures
            r == self@.job_id,
    {
        self.job_id
    }

    pub fn sequence(&self) -> (r: Sequence)
        ensures
            r == self@.sequence,
    {
        self.sequence
    }

    pub fn state(&self) -> (r: RunState)
        ensures
            r == self@.state,
    {
        self.state
    }

    pub fn claim_token(&self) -> (r: ClaimToken)
        ensures
            r@ == self@.claim_token,
    {
        self.claim_token
    }

    pub fn finished_at_utc(&self) -> (r: Option<UtcTimestamp>)
        ensures
            r == self@.finished_at_utc,
    {
        self.finished_at_utc
    }

    pub fn command_identity(&self) -> (r: Option<&ProcessIdentitySnapshot>)
        ensures
            match r {
                Some(identity) => self@.command_identity == Some(identity@),
                None => self@.command_identity is None,
            },
    {
        match &self.command_identity {
            Some(identity) => Some(identity),
            None => None,
        }
    }

    pub fn monitor_identity(&self) -> (r: Option<&ProcessIdentitySnapshot>)
        ensures
            match r {
                Some(identity) => self@.monitor_identity == Some(identity@),
                None => self@.monitor_identity is None,
            },
    {
        match &self.monitor_identity {
            Some(identity) => Some(identity),
            None => None,
        }
    }

    /// Records that the run is to be cancelled; asking again changes nothing.
    pub fn request_cancellation(self) -> (r: Result<Run, RunError>)
        ensures
            if self@.state.terminal() {
                r == Err::<Run, RunError>(RunError::InvalidState)
            } else {
                r matches Ok(run) && run@ == (RunModel {
                    state: RunState::CancelRequested,
                    ..self@
                })
            },
    {
        match self.state {
            RunState::Starting | RunState::Running | RunState::CancelRequested => Ok(
                Run { state: RunState::CancelRequested, ..self },
            ),
            _ => Err(RunError::InvalidState),
        }
    }

    /// Records that the command was started.
    pub fn mark_running(
        self,
        started_at_utc: UtcTimestamp,
        monitor_identity: ProcessIdentitySnapshot,
        command_identity: ProcessIdentitySnapshot,
        stdout_path: String,
        stderr_path: String,
    ) -> (r: Result<Run, RunError>)
        ensures
            match start_fault(
                self@,
                started_at_utc,
                monitor_identity@,
                command_identity@,
                stdout_path@,
                stderr_path@,
            ) {
                Some(error) => r == Err::<Run, RunError>(error),
                None => r matches Ok(run) && run@ == (RunModel {
                    started_at_utc: Some(started_at_utc),
                    state: RunState::Running,
                    monitor_identity: Some(monitor_identity@),
                    command_identity: Some(command_identity@),
                    stdout_path: Some(stdout_path@),
                    stderr_path: Some(stderr_path@),
                    ..self@
                }),
            },
    {
        if self.state != RunState::Starting {
            return Err(RunError::InvalidState);
        }
        if started_at_utc.is_before(self.created_at_utc) {
            return Err(RunError::StartBeforeCreation);
        }
        match validate_identity(&monitor_identity) {
            Ok(_) => {},
            Err(error) => {
                return Err(error);
            },
        }
        match validate_identity(&command_identity) {
            Ok(_) => {},
            Err(error) => {
                return Err(error);
            },
        }
        match validate_log_path(stdout_path.as_str()) {
            Ok(_) => {},
            Err(error) => {
                return Err(error);
            },
        }
        match validate_log_path(stderr_path.as_str()) {
            Ok(_) => {},
            Err(error) => {
                return Err(error);
            },
        }
        Ok(
            Run {
                started_at_utc: Some(started_at_utc),
                state: RunState::Running,
                monitor_identity: Some(monitor_identity),
                command_identity: Some(command_identity),
                stdout_path: Some(stdout_path),
                stderr_path: Some(stderr_path),
                ..self
            },
        )
    }

    /// Records how the run ended, once.
    pub fn with_outcome(self, finished_at_utc: UtcTimestamp, outcome: RunOutcome) -> (r: Result<
        Run,
        RunError,
    >)
        ensures
            match finish_fault(self@, finished_at_utc, outcome@) {
                Some(error) => r == Err::<Run, RunError>(error),
                None => r matches Ok(run) && run@ == (RunModel {
                    state: state_of_outcome(outcome@),
                    finished_at_utc: Some(finished_at_utc),
                    outcome: Some(outcome@),
                    ..self@
                }),
            },
    {
        if self.outcome.is_some() {
            return Err(RunError::OutcomeAlreadyRecorded);
        }
        if finished_at_utc.is_before(self.created_at_utc) {
            return Err(RunError::FinishBeforeCreation);
        }
        let cancelled: bool = match &outcome {
            RunOutcome::Cancelled(_) => true,
            _ => false,
        };
        if self.state.is_terminal() || (cancelled && self.state != RunState::CancelRequested) {
            return Err(RunError::InvalidState);
        }
        let state: RunState = outcome_state(&outcome);
        Ok(
            Run {
                state,
                finished_at_utc: Some(finished_at_utc),
                outcome: Some(outcome),
                ..self
            },
        )
    }

    /// The fields of the run.
    pub fn snapshot(&self) -> (r: RunSnapshot)
        ensures
            r@ == self@,
    {
        RunSnapshot {
            id: self.id,
            job_id: self.job_id,
            sequence: self.sequence,
            scheduled_for_utc: self.scheduled_for_utc,
            created_at_utc: self.created_at_utc,
            started_at_utc: self.started_at_utc,
            finished_at_utc: self.finished_at_utc,
            state: self.state,
            claim_token: self.claim_token,
            monitor_identity: copy_identity(&self.monitor_identity),
            command_identity: copy_identity(&self.command_identity),
            outcome: copy_outcome(&self.outcome),
            stdout_path: copy_optional_text(&self.stdout_path),
            stderr_path: copy_optional_text(&self.stderr_path),
        }
    }

    /// The run with the given fields, unless they contradict each other.
    pub fn rehydrate(snapshot: RunSnapshot) -> (r: Result<Run, RunError>)
        ensures
            match snapshot_fault(snapshot@) {
                Some(error) => r == Err::<Run, RunError>(error),
                None => r matches Ok(run) && run@ == snapshot@,
            },
    {
        let early_start: bool = match snapshot.started_at_utc {
            Some(started) => started.is_before(snapshot.created_at_utc),
            None => false,
        };
        let early_finish: bool = match snapshot.finished_at_utc {
            Some(finished) => finished.is_before(snapshot.created_at_utc),
            None => false,
        };
        let reversed: bool = match (snapshot.started_at_utc, snapshot.finished_at_utc) {
            (Some(started), Some(finished)) => finished.is_before(started),
            _ => false,
        };
        if early_start || early_finish || reversed {
            return Err(RunError::InvalidTimeline);
        }
        let terminal: bool = snapshot.state.is_terminal();
        let mismatch: bool = match &snapshot.outcome {
            Some(outcome) => outcome_state(outcome) != snapshot.state,
            None => false,
        };
        if terminal != snapshot.outcome.is_some() || terminal != snapshot.finished_at_utc.is_some()
            || mismatch {
            return Err(RunError::InvalidOutcome);
        }
        match &snapshot.monitor_identity {
            Some(identity) => match validate_identity(identity) {
                Ok(_) => {},
                Err(error) => {
                    return Err(error);
                },
            },
            None => {},
        }
        match &snapshot.command_identity {
            Some(identity) => match validate_identity(identity) {
                Ok(_) => {},
                Err(error) => {
                    return Err(error);
                },
            },
            None => {},
        }
        match &snapshot.stdout_path {
            Some(path) => match validate_log_path(path.as_str()) {
                Ok(_) => {},
                Err(error) => {
                    return Err(error);
                },
            },
            None => {},
        }
        match &snapshot.stderr_path {
            Some(path) => match validate_log_path(path.as_str()) {
                Ok(_) => {},
                Err(error) => {
                    return Err(error);
                },
            },
            None => {},
        }
        Ok(
            Run {
                id: snapshot.id,
                job_id: snapshot.job_id,
                sequence: snapshot.sequence,
                scheduled_for_utc: snapshot.scheduled_for_utc,
                created_at_utc: snapshot.created_at_utc,
                started_at_utc: snapshot.started_at_utc,
                finished_at_utc: snapshot.finished_at_utc,
                state: snapshot.state,
                claim_token: snapshot.claim_token,
                monitor_identity: snapshot.monitor_identity,
                command_identity: snapshot.command_identity,
                outcome: snapshot.outcome,
                stdout_path: snapshot.stdout_path,
                stderr_path: snapshot.stderr_path,
            },
        )
    }
}

impl Clone for Run {
    fn clone(&self) -> (r: Run)
        ensures
            r@ == self@,
    {
        Run {
            id: self.id,
            job_id: self.job_id,
            sequence: self.sequence,
            scheduled_for_utc: self.scheduled_for_utc,
            created_at_utc: self.created_at_utc,
            started_at_utc: self.started_at_utc,
            finished_at_utc: self.finished_at_utc,
            state: self.state,
            claim_token: self.claim_token,
            monitor_identity: copy_identity(&self.monitor_identity),
            command_identity: copy_identity(&self.command_identity),
            outcome: copy_outcome(&self.outcome),
            stdout_path: copy_optional_text(&self.stdout_path),
            stderr_path: copy_optional_text(&self.stderr_path),
        }
    }
}

// ---------------------------------------------------------------------------------------------
// Laws
// ---------------------------------------------------------------------------------------------
/// Starting a run, asking for its cancellation, and ending it no earlier than it started keep a
/// run that can be stored and loaded again.
pub proof fn lemma_run_updates_keep_run(
    run: RunModel,
    started: UtcTimestamp,
    monitor: IdentityModel,
    command: IdentityModel,
    stdout_path: Seq<char>,
    stderr_path: Seq<char>,
    finished: UtcTimestamp,
    outcome: OutcomeModel,
)
    requires
        snapshot_fault(run) is None,
    ensures
        start_fault(run, started, monitor, command, stdout_path, stderr_path) is None
            ==> snapshot_fault(
            (RunModel {
                started_at_utc: Some(started),
                state: RunState::Running,
                monitor_identity: Some(monitor),
                command_identity: Some(command),
                stdout_path: Some(stdout_path),
                stderr_path: Some(stderr_path),
                ..run
            }),
        ) is None,
        !run.state.terminal() ==> snapshot_fault(
            (RunModel { state: RunState::CancelRequested, ..run }),
        ) is None,
        finish_fault(run, finished, outcome) is None && (run.started_at_utc matches Some(start)
            ==> finished@ >= start@) ==> snapshot_fault(
            (RunModel {
                state: state_of_outcome(outcome),
                finished_at_utc: Some(finished),
                outcome: Some(outcome),
                ..run
            }),
        ) is None,
{
}

/// A run that ended keeps its outcome: no second outcome, no cancellation and no start is
/// accepted.
pub proof fn lemma_finished_run_is_final(
    run: RunModel,
    started: UtcTimestamp,
    monitor: IdentityModel,
    command: IdentityModel,
    stdout_path: Seq<char>,
    stderr_path: Seq<char>,
    finished: UtcTimestamp,
    outcome: OutcomeModel,
)
    requires
        run.state.terminal(),
    ensures
        finish_fault(run, finished, outcome) is Some,
        start_fault(run, started, monitor, command, stdout_path, stderr_path) == Some(
            RunError::InvalidState,
        ),
{
}

} // verus!
