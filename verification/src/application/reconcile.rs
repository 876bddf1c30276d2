//! Startup reconciliation service.
//!
//! After a restart every job that is not done is looked at once: runs whose monitor is still alive
//! are left alone, other active runs are interrupted, and waiting jobs get their deadline back or
//! are handled by their missed policy.
use vstd::prelude::*;
use vstd::seq_lib::group_to_multiset_ensures;

use crate::domain::id::{id_text, JobId, RunId};
use crate::domain::job::{Job, JobModel};
use crate::domain::primitives::{in_time_range, Revision, UtcTimestamp, NANOS_PER_SECOND};
use crate::domain::recurrence::{next_fixed_rate_utc, next_occurrence, ElapsedInstant};
use crate::domain::run::{ClaimToken, IdentityModel, ProcessIdentitySnapshot, Run, RunModel};
use crate::domain::schedule::{MissedPolicy, Schedule, ScheduleModel};
use crate::domain::state::{JobState, RunState};
use crate::text::{contains_char, push_text, text_eq};

verus! {

broadcast use vstd::seq::group_seq_axioms;

/// Whether a process is the one that an identity was taken of.
#[derive(Clone, Copy, Debug, PartialEq, Eq, Structural)]
pub enum IdentityStatus {
    Alive,
    Dead,
    Changed,
}

/// Why a process could not be looked at.
#[derive(Debug, PartialEq, Eq)]
pub struct IdentityInspectionError(pub String);

/// Tells what became of processes.
pub trait IdentityInspector {
    fn classify(&self, identity: &ProcessIdentitySnapshot) -> Result<
        IdentityStatus,
        IdentityInspectionError,
    >;
}

/// What is known of a command after a restart.
#[derive(Clone, Copy, Debug, PartialEq, Eq, Structural)]
pub enum CommandFate {
    Alive,
    Dead,
    Changed,
    Unknown,
}

/// A job that is not done, with its latest run.
pub struct RecoveryRecord {
    pub job: Job,
    pub active_run: Option<Run>,
}

/// When a waiting job is to be started.
#[derive(Clone, Copy, Debug, PartialEq, Eq, Structural)]
pub struct RecoveredDeadline {
    pub job_id: JobId,
    pub scheduled_for_utc: UtcTimestamp,
    pub elapsed_due: ElapsedInstant,
}

/// A change that recovery makes to the store.
#[derive(PartialEq, Eq)]
pub enum RecoveryAction {
    /// The run's end was not seen: the job and its run are interrupted.
    Interrupt {
        job_id: JobId,
        expected_revision: Revision,
        run: Option<(RunId, ClaimToken)>,
        command_fate: CommandFate,
    },
    /// The deadline passed unattended.
    MarkMissed { job_id: JobId, expected_revision: Revision },
    /// A recurring job waits for a later occurrence.
    AdvanceRecurring { job_id: JobId, expected_revision: Revision, next_due_utc: UtcTimestamp },
}

/// What recovery does.
#[derive(PartialEq, Eq)]
pub struct RecoveryPlan {
    pub deadlines: Vec<RecoveredDeadline>,
    pub preserved_runs: Vec<RunId>,
    pub actions: Vec<RecoveryAction>,
}

/// Why the store failed during recovery.
#[derive(Debug, PartialEq, Eq)]
pub struct RecoveryStoreError(pub String);

/// Where jobs are kept.
pub trait RecoveryStore {
    fn load_nonterminal(&self) -> Result<Vec<RecoveryRecord>, RecoveryStoreError>;

    fn apply_recovery(&mut self, actions: &Vec<RecoveryAction>, now: UtcTimestamp) -> Result<
        (),
        RecoveryStoreError,
    >;

    fn cleanup_recovery(&mut self, now: UtcTimestamp) -> Result<(), RecoveryStoreError>;
}

/// Why no plan could be made.
#[derive(Clone, Copy, Debug, PartialEq, Eq, Structural)]
pub enum ReconciliationError {
    InvalidBootIdentity,
    TerminalJobLoaded(JobId),
    UnexpectedActiveRun(JobId),
    DeadlineOverflow,
}

/// The message of a reconciliation error.
pub open spec fn reconciliation_message(error: ReconciliationError) -> Seq<char> {
    match error {
        ReconciliationError::InvalidBootIdentity => "current boot identity is invalid"@,
        ReconciliationError::TerminalJobLoaded(id) => "recovery loaded terminal job "@ + id_text(
            id@,
        ),
        ReconciliationError::UnexpectedActiveRun(id) => "waiting job "@ + id_text(id@)
            + " has an active run"@,
        ReconciliationError::DeadlineOverflow => "deadline arithmetic overflowed"@,
    }
}

impl ReconciliationError {
    /// The error as a message.
    pub fn to_string(&self) -> (text: String)
        ensures
            text@ == reconciliation_message(*self),
    {
        match self {
            ReconciliationError::InvalidBootIdentity => {
                "current boot identity is invalid".to_owned()
            },
            ReconciliationError::TerminalJobLoaded(id) => {
                let mut out: String = "recovery loaded terminal job ".to_owned();
                push_text(&mut out, id.to_string().as_str());
                out
            },
            ReconciliationError::UnexpectedActiveRun(id) => {
                let mut out: String = "waiting job ".to_owned();
                push_text(&mut out, id.to_string().as_str());
                push_text(&mut out, " has an active run");
                out
            },
            ReconciliationError::DeadlineOverflow => "deadline arithmetic overflowed".to_owned(),
        }
    }
}

/// Why recovery failed.
#[derive(Debug, PartialEq, Eq)]
pub enum StartupReconciliationError {
    Plan(ReconciliationError),
    Store(RecoveryStoreError),
}

// ---------------------------------------------------------------------------------------------
// Models
// ---------------------------------------------------------------------------------------------
/// A deadline with its times in nanoseconds.
pub struct DeadlineModel {
    pub job_id: JobId,
    pub scheduled_for: int,
    pub elapsed_due: int,
}

impl View for RecoveredDeadline {
    type V = DeadlineModel;

    open spec fn view(&self) -> DeadlineModel {
        DeadlineModel {
            job_id: self.job_id,
            scheduled_for: self.scheduled_for_utc@,
            elapsed_due: self.elapsed_due@ as int,
        }
    }
}

/// An action with its token as bytes and its time in nanoseconds.
pub enum ActionModel {
    Interrupt {
        job_id: JobId,
        expected_revision: Revision,
        run: Option<(RunId, Seq<u8>)>,
        command_fate: CommandFate,
    },
    MarkMissed { job_id: JobId, expected_revision: Revision },
    AdvanceRecurring { job_id: JobId, expected_revision: Revision, next_due: int },
}

impl View for RecoveryAction {
    type V = ActionModel;

    open spec fn view(&self) -> ActionModel {
        match *self {
            RecoveryAction::Interrupt { job_id, expected_revision, run, command_fate } => {
                ActionModel::Interrupt {
                    job_id,
                    expected_revision,
                    run: match run {
                        Some((id, token)) => Some((id, token@)),
                        None => None,
                    },
                    command_fate,
                }
            },
            RecoveryAction::MarkMissed { job_id, expected_revision } => {
                ActionModel::MarkMissed { job_id, expected_revision }
            },
            RecoveryAction::AdvanceRecurring { job_id, expected_revision, next_due_utc } => {
                ActionModel::AdvanceRecurring { job_id, expected_revision, next_due: next_due_utc@ }
            },
        }
    }
}

/// What one record adds to a plan.
pub struct Effect {
    pub deadline: Option<DeadlineModel>,
    pub preserved: Option<RunId>,
    pub action: Option<ActionModel>,
}

/// The contents of a plan.
pub struct PlanModel {
    pub deadlines: Seq<DeadlineModel>,
    pub preserved: Seq<RunId>,
    pub actions: Seq<ActionModel>,
}

/// A plan with one more effect.
pub open spec fn with_effect(plan: PlanModel, effect: Effect) -> PlanModel {
    PlanModel {
        deadlines: match effect.deadline {
            Some(deadline) => plan.deadlines.push(deadline),
            None => plan.deadlines,
        },
        preserved: match effect.preserved {
            Some(run) => plan.preserved.push(run),
            None => plan.preserved,
        },
        actions: match effect.action {
            Some(action) => plan.actions.push(action),
            None => plan.actions,
        },
    }
}

impl View for RecoveryPlan {
    type V = PlanModel;

    open spec fn view(&self) -> PlanModel {
        PlanModel {
            deadlines: self.deadlines@.map_values(|deadline: RecoveredDeadline| deadline@),
            preserved: self.preserved_runs@,
            actions: self.actions@.map_values(|action: RecoveryAction| action@),
        }
    }
}

/// What was seen of a run's processes.
#[derive(Clone, Copy, Debug, PartialEq, Eq, Structural)]
pub struct RunObservation {
    pub command_fate: CommandFate,
    pub monitor_alive: bool,
}

/// A record as a model.
pub open spec fn record_model(record: RecoveryRecord) -> (JobModel, Option<RunModel>) {
    (
        record.job@,
        match record.active_run {
            Some(run) => Some(run@),
            None => None,
        },
    )
}

// ---------------------------------------------------------------------------------------------
// The rules
// ---------------------------------------------------------------------------------------------
/// What an inspector's answer says of a command.
pub open spec fn fate_of(answer: Result<IdentityStatus, IdentityInspectionError>) -> CommandFate {
    match answer {
        Ok(IdentityStatus::Alive) => CommandFate::Alive,
        Ok(IdentityStatus::Dead) => CommandFate::Dead,
        Ok(IdentityStatus::Changed) => CommandFate::Changed,
        Err(_) => CommandFate::Unknown,
    }
}

/// The observation is one that can be made of the run: a process of an earlier boot is never
/// taken for a live one, and nothing is known of a process without identity.
pub open spec fn possible_observation(
    run: RunModel,
    boot_identity: Seq<char>,
    seen: RunObservation,
) -> bool {
    &&& match run.command_identity {
        None => seen.command_fate == CommandFate::Unknown,
        Some(identity) => identity.boot_identity != boot_identity ==> seen.command_fate
            == CommandFate::Changed,
    }
    &&& seen.monitor_alive ==> {
        run.monitor_identity matches Some(identity) && identity.boot_identity == boot_identity
    }
}

/// What an active job adds to a plan.
pub open spec fn active_effect(
    job: JobModel,
    active_run: Option<RunModel>,
    seen: RunObservation,
) -> Effect {
    match active_run {
        Some(run) => if run.state.terminal() {
            interrupt_effect(job, None, CommandFate::Unknown)
        } else if seen.monitor_alive && (run.state == RunState::Running || run.state
            == RunState::CancelRequested) {
            Effect { deadline: None, preserved: Some(run.id), action: None }
        } else {
            interrupt_effect(job, Some((run.id, run.claim_token)), seen.command_fate)
        },
        None => interrupt_effect(job, None, CommandFate::Unknown),
    }
}

/// The effect of interrupting a job and its run.
pub open spec fn interrupt_effect(
    job: JobModel,
    run: Option<(RunId, Seq<u8>)>,
    command_fate: CommandFate,
) -> Effect {
    Effect {
        deadline: None,
        preserved: None,
        action: Some(
            ActionModel::Interrupt {
                job_id: job.id,
                expected_revision: job.revision,
                run,
                command_fate,
            },
        ),
    }
}

/// When an instant comes on the clock that only moves forward.
pub open spec fn elapsed_at(due: int, wall_now: int, elapsed_now: int) -> int {
    if due > wall_now {
        elapsed_now + (due - wall_now)
    } else {
        elapsed_now
    }
}

/// The job is to be started at an instant, or at once where it has passed.
pub open spec fn start_at(job: JobModel, time: int, wall_now: int, elapsed_now: int) -> Option<
    DeadlineModel,
> {
    Some(
        DeadlineModel {
            job_id: job.id,
            scheduled_for: time,
            elapsed_due: elapsed_at(time, wall_now, elapsed_now),
        },
    )
}

/// The recurring job is due again at an instant.
pub open spec fn advance_to(job: JobModel, time: int) -> Option<ActionModel> {
    Some(
        ActionModel::AdvanceRecurring {
            job_id: job.id,
            expected_revision: job.revision,
            next_due: time,
        },
    )
}

/// What a waiting job adds to a plan.
pub open spec fn waiting_effect(job: JobModel, wall_now: int, elapsed_now: int) -> Result<
    Effect,
    ReconciliationError,
> {
    let due = job.next_due_utc@;
    let start_due = start_at(job, due, wall_now, elapsed_now);
    if due > wall_now {
        if elapsed_at(due, wall_now, elapsed_now) > u128::MAX {
            Err(ReconciliationError::DeadlineOverflow)
        } else {
            Ok(Effect { deadline: start_due, preserved: None, action: None })
        }
    } else {
        match job.schedule {
            ScheduleModel::RecurringInterval { interval, persisted_anchor_utc } => {
                let next = next_occurrence(
                    persisted_anchor_utc@,
                    wall_now,
                    interval@ * NANOS_PER_SECOND,
                );
                let start_next = start_at(job, next, wall_now, elapsed_now);
                match job.missed_policy {
                    MissedPolicy::RunLatest => if !in_time_range(next) {
                        Err(ReconciliationError::DeadlineOverflow)
                    } else {
                        Ok(
                            Effect {
                                deadline: start_due,
                                preserved: None,
                                action: advance_to(job, next),
                            },
                        )
                    },
                    MissedPolicy::Skip => if !in_time_range(next) || elapsed_at(
                        next,
                        wall_now,
                        elapsed_now,
                    ) > u128::MAX {
                        Err(ReconciliationError::DeadlineOverflow)
                    } else {
                        Ok(
                            Effect {
                                deadline: start_next,
                                preserved: None,
                                action: advance_to(job, next),
                            },
                        )
                    },
                    MissedPolicy::Hold => Ok(missed_effect(job)),
                }
            },
            _ => match job.missed_policy {
                MissedPolicy::RunLatest => Ok(
                    Effect { deadline: start_due, preserved: None, action: None },
                ),
                _ => Ok(missed_effect(job)),
            },
        }
    }
}

/// The effect of a deadline that passed unattended.
pub open spec fn missed_effect(job: JobModel) -> Effect {
    Effect {
        deadline: None,
        preserved: None,
        action: Some(
            ActionModel::MarkMissed { job_id: job.id, expected_revision: job.revision },
        ),
    }
}

/// A job whose command has been started, or is about to be.
pub open spec fn is_active(state: JobState) -> bool {
    state == JobState::Starting || state == JobState::Running || state == JobState::CancelRequested
}

/// What a record adds to a plan.
pub open spec fn record_effect(
    record: (JobModel, Option<RunModel>),
    seen: RunObservation,
    wall_now: int,
    elapsed_now: int,
) -> Result<Effect, ReconciliationError> {
    let (job, active_run) = record;
    if job.state.terminal() {
        Err(ReconciliationError::TerminalJobLoaded(job.id))
    } else if is_active(job.state) {
        Ok(active_effect(job, active_run, seen))
    } else if active_run is Some {
        Err(ReconciliationError::UnexpectedActiveRun(job.id))
    } else {
        waiting_effect(job, wall_now, elapsed_now)
    }
}

/// What the records add up to, each with what was seen of its run, or what is wrong with the
/// first bad one.
pub open spec fn gathered(
    records: Seq<RecoveryRecord>,
    seen: Seq<RunObservation>,
    wall_now: int,
    elapsed_now: int,
) -> Result<PlanModel, ReconciliationError>
    decreases records.len(),
{
    if records.len() == 0 {
        Ok(PlanModel { deadlines: Seq::empty(), preserved: Seq::empty(), actions: Seq::empty() })
    } else {
        match gathered(records.drop_last(), seen.drop_last(), wall_now, elapsed_now) {
            Err(error) => Err(error),
            Ok(plan) => match record_effect(
                record_model(records.last()),
                seen.last(),
                wall_now,
                elapsed_now,
            ) {
                Err(error) => Err(error),
                Ok(effect) => Ok(with_effect(plan, effect)),
            },
        }
    }
}

/// What was seen is possible for every record with a run.
pub open spec fn possible_observations(
    records: Seq<RecoveryRecord>,
    seen: Seq<RunObservation>,
    boot_identity: Seq<char>,
) -> bool {
    &&& seen.len() == records.len()
    &&& forall|i: int|
        0 <= i < records.len() ==> (record_model(#[trigger] records[i]).1 matches Some(run)
            ==> is_active(records[i].job@.state) && !run.state.terminal() ==> possible_observation(
            run,
            boot_identity,
            seen[i],
        ))
}

/// `a` comes no later than `b`; of deadlines at the same time the smaller identifier comes first.
pub open spec fn deadline_ordered(a: DeadlineModel, b: DeadlineModel) -> bool {
    a.elapsed_due < b.elapsed_due || (a.elapsed_due == b.elapsed_due && a.job_id@ <= b.job_id@)
}

/// The plan holds what was gathered, deadlines and preserved runs in order.
pub open spec fn plan_holds(plan: RecoveryPlan, all: PlanModel) -> bool {
    &&& plan@.actions == all.actions
    &&& plan@.deadlines.to_multiset() == all.deadlines.to_multiset()
    &&& forall|i: int, j: int|
        0 <= i <= j < plan@.deadlines.len() ==> deadline_ordered(
            #[trigger] plan@.deadlines[i],
            #[trigger] plan@.deadlines[j],
        )
    &&& plan@.preserved.to_multiset() == all.preserved.to_multiset()
    &&& forall|i: int, j: int|
        0 <= i <= j < plan@.preserved.len() ==> (#[trigger] plan@.preserved[i])@ <= (
        #[trigger] plan@.preserved[j])@
}

/// The identity of a boot may be compared with others.
pub open spec fn valid_boot_identity(boot_identity: Seq<char>) -> bool {
    boot_identity.len() > 0 && !boot_identity.contains('\0')
}

/// The result is a plan for the records with some possible observations.
pub open spec fn plan_outcome(
    records: Seq<RecoveryRecord>,
    seen: Seq<RunObservation>,
    wall_now: int,
    elapsed_now: int,
    r: Result<RecoveryPlan, ReconciliationError>,
) -> bool {
    match gathered(records, seen, wall_now, elapsed_now) {
        Err(error) => r == Err::<RecoveryPlan, ReconciliationError>(error),
        Ok(all) => r matches Ok(plan) && plan_holds(plan, all),
    }
}

/// The inspector was asked for the process with the identity, with this answer.
pub open spec fn identity_asked<Inspector: IdentityInspector>(
    inspector: Inspector,
    identity: IdentityModel,
    answer: Result<IdentityStatus, IdentityInspectionError>,
) -> bool {
    exists|known: &ProcessIdentitySnapshot| #[trigger]
        call_ensures(Inspector::classify, (&inspector, known), answer) && known@ == identity
}

/// What became of a process: nothing is known of one without identity, one of an earlier boot is
/// another process now, and any other is looked at.
pub open spec fn process_fate<Inspector: IdentityInspector>(
    inspector: Inspector,
    identity: Option<IdentityModel>,
    boot_identity: Seq<char>,
    fate: CommandFate,
) -> bool {
    match identity {
        None => fate == CommandFate::Unknown,
        Some(known) => if known.boot_identity != boot_identity {
            fate == CommandFate::Changed
        } else {
            exists|answer: Result<IdentityStatus, IdentityInspectionError>|
                #[trigger] identity_asked(inspector, known, answer) && fate == fate_of(answer)
        },
    }
}

/// The processes of the run were looked at, and this was seen.
pub open spec fn run_observed<Inspector: IdentityInspector>(
    inspector: Inspector,
    run: RunModel,
    boot_identity: Seq<char>,
    seen: RunObservation,
) -> bool {
    &&& process_fate(inspector, run.command_identity, boot_identity, seen.command_fate)
    &&& exists|fate: CommandFate|
        {
            &&& #[trigger] process_fate(inspector, run.monitor_identity, boot_identity, fate)
            &&& seen.monitor_alive == (fate == CommandFate::Alive)
        }
}

/// Every active run was looked at, and this was seen.
pub open spec fn runs_observed<Inspector: IdentityInspector>(
    inspector: Inspector,
    records: Seq<RecoveryRecord>,
    seen: Seq<RunObservation>,
    boot_identity: Seq<char>,
) -> bool {
    &&& seen.len() == records.len()
    &&& forall|i: int|
        0 <= i < records.len() ==> (record_model(#[trigger] records[i]).1 matches Some(run)
            ==> is_active(records[i].job@.state) && !run.state.terminal() ==> run_observed(
            inspector,
            run,
            boot_identity,
            seen[i],
        ))
}

/// The result is what planning gives for the records: a plan rests on what was seen of the active
/// runs, and a failure does not depend on it.
pub open spec fn recovery_planned<Inspector: IdentityInspector>(
    inspector: Inspector,
    records: Seq<RecoveryRecord>,
    wall_now: UtcTimestamp,
    elapsed_now: ElapsedInstant,
    boot_identity: Seq<char>,
    r: Result<RecoveryPlan, ReconciliationError>,
) -> bool {
    if !valid_boot_identity(boot_identity) {
        r == Err::<RecoveryPlan, ReconciliationError>(ReconciliationError::InvalidBootIdentity)
    } else {
        exists|seen: Seq<RunObservation>|
            {
                &&& possible_observations(records, seen, boot_identity)
                &&& r is Ok ==> runs_observed(inspector, records, seen, boot_identity)
                &&& #[trigger] plan_outcome(records, seen, wall_now@, elapsed_now@ as int, r)
            }
    }
}

// ---------------------------------------------------------------------------------------------
// Laws
// ---------------------------------------------------------------------------------------------
/// Recovery starts no command of an active job: it either leaves the run alone or interrupts it.
/// It leaves a run alone only where the monitor was seen alive.
pub proof fn lemma_active_jobs_are_never_restarted(
    job: JobModel,
    active_run: Option<RunModel>,
    seen: RunObservation,
)
    ensures
        active_effect(job, active_run, seen).deadline is None,
        active_effect(job, active_run, seen).preserved is Some ==> {
            seen.monitor_alive && active_run is Some
        },
        active_effect(job, active_run, seen).preserved is None ==> active_effect(
            job,
            active_run,
            seen,
        ).action is Some,
{
}

/// A job that was missed is started at once only under the run-latest policy; otherwise its next
/// start, if any, is in the future.
pub proof fn lemma_missed_jobs_follow_policy(job: JobModel, wall_now: int, elapsed_now: int)
    requires
        job.next_due_utc@ <= wall_now,
        job.schedule matches ScheduleModel::RecurringInterval { interval, .. } ==> interval@ > 0,
    ensures
        waiting_effect(job, wall_now, elapsed_now) matches Ok(effect) ==> {
            effect.deadline matches Some(deadline) ==> if job.missed_policy
                == MissedPolicy::RunLatest {
                deadline.elapsed_due == elapsed_now && deadline.scheduled_for == job.next_due_utc@
            } else {
                deadline.elapsed_due > elapsed_now && deadline.scheduled_for > wall_now
            }
        },
{
    match job.schedule {
        ScheduleModel::RecurringInterval { interval, persisted_anchor_utc } => {
            crate::domain::recurrence::lemma_next_occurrence(
                persisted_anchor_utc@,
                wall_now,
                interval@ * NANOS_PER_SECOND,
            );
        },
        _ => {},
    }
}

/// Recovery starts only jobs that were waiting for their deadline: a job whose command may have run,
/// with whatever outcome, is never started by itself again.
pub proof fn lemma_only_waiting_jobs_are_started(
    records: Seq<RecoveryRecord>,
    seen: Seq<RunObservation>,
    wall_now: int,
    elapsed_now: int,
    at: int,
)
    requires
        gathered(records, seen, wall_now, elapsed_now) matches Ok(plan) && 0 <= at
            < plan.deadlines.len(),
    ensures
        exists|i: int|
            {
                &&& 0 <= i < records.len()
                &&& !is_active((#[trigger] records[i]).job@.state)
                &&& !records[i].job@.state.terminal()
                &&& records[i].job@.id == gathered(
                    records,
                    seen,
                    wall_now,
                    elapsed_now,
                )->Ok_0.deadlines[at].job_id
            },
    decreases records.len(),
{
    if records.len() > 0 {
        let before = gathered(records.drop_last(), seen.drop_last(), wall_now, elapsed_now);
        if at < before->Ok_0.deadlines.len() {
            lemma_only_waiting_jobs_are_started(
                records.drop_last(),
                seen.drop_last(),
                wall_now,
                elapsed_now,
                at,
            );
            let i = choose|i: int|
                {
                    &&& 0 <= i < records.drop_last().len()
                    &&& !is_active((#[trigger] records.drop_last()[i]).job@.state)
                    &&& !records.drop_last()[i].job@.state.terminal()
                    &&& records.drop_last()[i].job@.id == before->Ok_0.deadlines[at].job_id
                };
            assert(records[i] == records.drop_last()[i]);
        } else {
            assert(records.last() == records[records.len() - 1]);
        }
    }
}

/// The plan does something about the job: it starts it, leaves its run alone, or changes it.
pub open spec fn accounts_for(
    plan: PlanModel,
    job: JobModel,
    active_run: Option<RunModel>,
) -> bool {
    ||| exists|at: int|
        0 <= at < plan.deadlines.len() && (#[trigger] plan.deadlines[at]).job_id == job.id
    ||| active_run matches Some(run) && plan.preserved.contains(run.id)
    ||| exists|at: int| 0 <= at < plan.actions.len() && action_job(#[trigger] plan.actions[at])
        == job.id
}

/// The job that an action changes.
pub open spec fn action_job(action: ActionModel) -> JobId {
    match action {
        ActionModel::Interrupt { job_id, .. } => job_id,
        ActionModel::MarkMissed { job_id, .. } => job_id,
        ActionModel::AdvanceRecurring { job_id, .. } => job_id,
    }
}

/// Recovery forgets no job that it loaded.
pub proof fn lemma_every_job_is_accounted_for(
    records: Seq<RecoveryRecord>,
    seen: Seq<RunObservation>,
    wall_now: int,
    elapsed_now: int,
    index: int,
)
    requires
        gathered(records, seen, wall_now, elapsed_now) is Ok,
        0 <= index < records.len(),
    ensures
        accounts_for(
            gathered(records, seen, wall_now, elapsed_now)->Ok_0,
            record_model(records[index]).0,
            record_model(records[index]).1,
        ),
    decreases records.len(),
{
    let before = gathered(records.drop_last(), seen.drop_last(), wall_now, elapsed_now)->Ok_0;
    let effect = record_effect(
        record_model(records.last()),
        seen.last(),
        wall_now,
        elapsed_now,
    )->Ok_0;
    let plan = with_effect(before, effect);
    let (job, active_run) = record_model(records[index]);
    if index < records.len() - 1 {
        lemma_every_job_is_accounted_for(
            records.drop_last(),
            seen.drop_last(),
            wall_now,
            elapsed_now,
            index,
        );
        assert(records.drop_last()[index] == records[index]);
        if exists|at: int|
            0 <= at < before.deadlines.len() && (#[trigger] before.deadlines[at]).job_id == job.id {
            let at = choose|at: int|
                0 <= at < before.deadlines.len() && (#[trigger] before.deadlines[at]).job_id
                    == job.id;
            assert(plan.deadlines[at] == before.deadlines[at]);
        } else if exists|at: int|
            0 <= at < before.actions.len() && action_job(#[trigger] before.actions[at]) == job.id {
            let at = choose|at: int|
                0 <= at < before.actions.len() && action_job(#[trigger] before.actions[at])
                    == job.id;
            assert(plan.actions[at] == before.actions[at]);
        } else {
            let run = active_run->0;
            let at = choose|at: int|
                0 <= at < before.preserved.len() && before.preserved[at] == run.id;
            assert(plan.preserved[at] == run.id);
        }
    } else {
        if effect.deadline is Some {
            assert(plan.deadlines[before.deadlines.len() as int].job_id == job.id);
        } else if effect.action is Some {
            assert(action_job(plan.actions[before.actions.len() as int]) == job.id);
        } else {
            assert(plan.preserved[before.preserved.len() as int] == active_run->0.id);
        }
    }
}

// ---------------------------------------------------------------------------------------------
// Planning
// ---------------------------------------------------------------------------------------------
/// What an inspector's answer says of a command.
pub fn answered_fate(answer: Result<IdentityStatus, IdentityInspectionError>) -> (r: CommandFate)
    ensures
        r == fate_of(answer),
{
    match answer {
        Ok(IdentityStatus::Alive) => CommandFate::Alive,
        Ok(IdentityStatus::Dead) => CommandFate::Dead,
        Ok(IdentityStatus::Changed) => CommandFate::Changed,
        Err(_) => CommandFate::Unknown,
    }
}

/// What became of a process.
pub fn inspect_fate<Inspector: IdentityInspector>(
    identity: Option<&ProcessIdentitySnapshot>,
    inspector: &Inspector,
    boot_identity: &str,
) -> (r: CommandFate)
    ensures
        process_fate(
            *inspector,
            match identity {
                Some(known) => Some(known@),
                None => None,
            },
            boot_identity@,
            r,
        ),
{
    match identity {
        None => CommandFate::Unknown,
        Some(known) => {
            if !text_eq(known.boot_identity.as_str(), boot_identity) {
                return CommandFate::Changed;
            }
            let answer: Result<IdentityStatus, IdentityInspectionError> = inspector.classify(known);
            assert(identity_asked(*inspector, known@, answer));
            answered_fate(answer)
        },
    }
}

/// Looks at the processes of a run.
pub fn observe_run<Inspector: IdentityInspector>(
    run: &Run,
    inspector: &Inspector,
    boot_identity: &str,
) -> (r: RunObservation)
    ensures
        run_observed(*inspector, run@, boot_identity@, r),
        possible_observation(run@, boot_identity@, r),
{
    let command_fate: CommandFate = inspect_fate(run.command_identity(), inspector, boot_identity);
    let monitor_fate: CommandFate = inspect_fate(run.monitor_identity(), inspector, boot_identity);
    assert(process_fate(*inspector, run@.monitor_identity, boot_identity@, monitor_fate));
    RunObservation { command_fate, monitor_alive: monitor_fate == CommandFate::Alive }
}

/// The action that interrupts a job.
pub fn interrupt_action(
    record: &RecoveryRecord,
    run: Option<(RunId, ClaimToken)>,
    command_fate: CommandFate,
) -> (r: RecoveryAction)
    ensures
        Some(r@) == interrupt_effect(
            record.job@,
            match run {
                Some((id, token)) => Some((id, token@)),
                None => None,
            },
            command_fate,
        ).action,
{
    RecoveryAction::Interrupt {
        job_id: record.job.id(),
        expected_revision: record.job.revision(),
        run,
        command_fate,
    }
}

proof fn lemma_push_action(plan: RecoveryPlan, after: RecoveryPlan, action: RecoveryAction)
    requires
        after.deadlines@ == plan.deadlines@,
        after.preserved_runs@ == plan.preserved_runs@,
        after.actions@ == plan.actions@.push(action),
    ensures
        after@ == with_effect(
            plan@,
            Effect { deadline: None, preserved: None, action: Some(action@) },
        ),
{
    assert(after@.actions =~= plan@.actions.push(action@));
}

proof fn lemma_push_deadline(plan: RecoveryPlan, after: RecoveryPlan, deadline: RecoveredDeadline)
    requires
        after.deadlines@ == plan.deadlines@.push(deadline),
        after.preserved_runs@ == plan.preserved_runs@,
        after.actions@ == plan.actions@,
    ensures
        after@ == with_effect(
            plan@,
            Effect { deadline: Some(deadline@), preserved: None, action: None },
        ),
{
    assert(after@.deadlines =~= plan@.deadlines.push(deadline@));
}

/// Adds what an active job needs, with what was seen of its run.
pub fn reconcile_active(record: &RecoveryRecord, seen: RunObservation, plan: &mut RecoveryPlan)
    ensures
        final(plan)@ == with_effect(
            old(plan)@,
            active_effect(record.job@, record_model(*record).1, seen),
        ),
{
    let ghost before = *plan;
    let run: &Run = match &record.active_run {
        Some(run) => run,
        None => {
            let action: RecoveryAction = interrupt_action(record, None, CommandFate::Unknown);
            let ghost pushed = action;
            plan.actions.push(action);
            proof {
                lemma_push_action(before, *plan, pushed);
            }
            return ;
        },
    };
    if run.state().is_terminal() {
        let action: RecoveryAction = interrupt_action(record, None, CommandFate::Unknown);
        let ghost pushed = action;
        plan.actions.push(action);
        proof {
            lemma_push_action(before, *plan, pushed);
        }
        return ;
    }
    if seen.monitor_alive && matches!(run.state(), RunState::Running | RunState::CancelRequested) {
        plan.preserved_runs.push(run.id());
        return ;
    }
    let action: RecoveryAction = interrupt_action(
        record,
        Some((run.id(), run.claim_token())),
        seen.command_fate,
    );
    let ghost pushed = action;
    plan.actions.push(action);
    proof {
        lemma_push_action(before, *plan, pushed);
    }
}

/// When a job is to be started on the clock that only moves forward.
pub fn deadline(
    job_id: JobId,
    scheduled_for_utc: UtcTimestamp,
    wall_now: UtcTimestamp,
    elapsed_now: ElapsedInstant,
) -> (r: Result<RecoveredDeadline, ReconciliationError>)
    ensures
        ({
            let at = elapsed_at(scheduled_for_utc@, wall_now@, elapsed_now@ as int);
            match r {
                Ok(found) => found@ == (DeadlineModel {
                    job_id,
                    scheduled_for: scheduled_for_utc@,
                    elapsed_due: at,
                }),
                Err(error) => at > u128::MAX && error == ReconciliationError::DeadlineOverflow,
            }
        }),
{
    let difference: i128 = scheduled_for_utc.as_nanosecond() - wall_now.as_nanosecond();
    let remaining: u128 = if difference > 0 {
        difference as u128
    } else {
        0
    };
    match elapsed_now.as_nanos().checked_add(remaining) {
        Some(nanos) => Ok(
            RecoveredDeadline {
                job_id,
                scheduled_for_utc,
                elapsed_due: ElapsedInstant::from_nanos(nanos),
            },
        ),
        None => Err(ReconciliationError::DeadlineOverflow),
    }
}

/// Adds what a waiting job needs. After an error the plan is not to be used.
pub fn reconcile_waiting(
    record: &RecoveryRecord,
    wall_now: UtcTimestamp,
    elapsed_now: ElapsedInstant,
    plan: &mut RecoveryPlan,
) -> (r: Result<(), ReconciliationError>)
    ensures
        match waiting_effect(record.job@, wall_now@, elapsed_now@ as int) {
            Ok(effect) => r is Ok && final(plan)@ == with_effect(old(plan)@, effect),
            Err(error) => r == Err::<(), ReconciliationError>(error),
        },
{
    let ghost before = *plan;
    let job_id: JobId = record.job.id();
    let due: UtcTimestamp = record.job.next_due_utc();
    if wall_now.is_before(due) {
        let found: RecoveredDeadline = match deadline(job_id, due, wall_now, elapsed_now) {
            Ok(found) => found,
            Err(error) => {
                return Err(error);
            },
        };
        plan.deadlines.push(found);
        proof {
            lemma_push_deadline(before, *plan, found);
        }
        return Ok(());
    }
    let policy: MissedPolicy = record.job.missed_policy();
    match record.job.schedule() {
        Schedule::RecurringInterval { interval, persisted_anchor_utc } => {
            if policy == MissedPolicy::Hold {
                let action: RecoveryAction = RecoveryAction::MarkMissed {
                    job_id,
                    expected_revision: record.job.revision(),
                };
                let ghost pushed = action;
                plan.actions.push(action);
                proof {
                    lemma_push_action(before, *plan, pushed);
                }
                return Ok(());
            }
            let next: UtcTimestamp = match next_fixed_rate_utc(
                *persisted_anchor_utc,
                wall_now,
                *interval,
            ) {
                Ok(next) => next,
                Err(_) => {
                    return Err(ReconciliationError::DeadlineOverflow);
                },
            };
            let found: RecoveredDeadline = if policy == MissedPolicy::RunLatest {
                RecoveredDeadline { job_id, scheduled_for_utc: due, elapsed_due: elapsed_now }
            } else {
                match deadline(job_id, next, wall_now, elapsed_now) {
                    Ok(found) => found,
                    Err(error) => {
                        return Err(error);
                    },
                }
            };
            let action: RecoveryAction = RecoveryAction::AdvanceRecurring {
                job_id,
                expected_revision: record.job.revision(),
                next_due_utc: next,
            };
            let ghost pushed = action;
            plan.deadlines.push(found);
            let ghost middle = *plan;
            plan.actions.push(action);
            proof {
                lemma_push_deadline(before, middle, found);
                lemma_push_action(middle, *plan, pushed);
                assert(plan@ == with_effect(
                    before@,
                    Effect { deadline: Some(found@), preserved: None, action: Some(pushed@) },
                ));
            }
        },
        _ => {
            if policy == MissedPolicy::RunLatest {
                let found: RecoveredDeadline = RecoveredDeadline {
                    job_id,
                    scheduled_for_utc: due,
                    elapsed_due: elapsed_now,
                };
                plan.deadlines.push(found);
                proof {
                    lemma_push_deadline(before, *plan, found);
                }
            } else {
                let action: RecoveryAction = RecoveryAction::MarkMissed {
                    job_id,
                    expected_revision: record.job.revision(),
                };
                let ghost pushed = action;
                plan.actions.push(action);
                proof {
                    lemma_push_action(before, *plan, pushed);
                }
            }
        },
    }
    Ok(())
}

/// Decides what recovery does with each record.
pub fn plan_recovery<Inspector: IdentityInspector>(
    records: &[RecoveryRecord],
    inspector: &Inspector,
    wall_now: UtcTimestamp,
    elapsed_now: ElapsedInstant,
    boot_identity: &str,
) -> (r: Result<RecoveryPlan, ReconciliationError>)
    ensures
        recovery_planned(*inspector, records@, wall_now, elapsed_now, boot_identity@, r),
{
    if boot_identity.unicode_len() == 0 || contains_char(boot_identity, '\0') {
        return Err(ReconciliationError::InvalidBootIdentity);
    }
    let mut plan = RecoveryPlan {
        deadlines: Vec::new(),
        preserved_runs: Vec::new(),
        actions: Vec::new(),
    };
    let ghost mut seen: Seq<RunObservation> = Seq::empty();
    let mut index: usize = 0;
    proof {
        assert(plan@.deadlines =~= Seq::<DeadlineModel>::empty());
        assert(plan@.preserved =~= Seq::<RunId>::empty());
        assert(plan@.actions =~= Seq::<ActionModel>::empty());
        assert(records@.take(0) =~= Seq::<RecoveryRecord>::empty());
    }
    while index < records.len()
        invariant
            index <= records@.len(),
            valid_boot_identity(boot_identity@),
            possible_observations(records@.take(index as int), seen, boot_identity@),
            runs_observed(*inspector, records@.take(index as int), seen, boot_identity@),
            gathered(records@.take(index as int), seen, wall_now@, elapsed_now@ as int) == Ok::<
                PlanModel,
                ReconciliationError,
            >(plan@),
        decreases records@.len() - index,
    {
        let record: &RecoveryRecord = &records[index];
        let state: JobState = record.job.state();
        let mut observed = RunObservation {
            command_fate: CommandFate::Unknown,
            monitor_alive: false,
        };
        let active: bool = matches!(
            state,
            JobState::Starting | JobState::Running | JobState::CancelRequested
        );
        if active {
            match &record.active_run {
                Some(run) => {
                    if !run.state().is_terminal() {
                        observed = observe_run(run, inspector, boot_identity);
                    }
                },
                None => {},
            }
        }
        let ghost before = records@.take(index as int);
        let ghost after = records@.take(index + 1);
        let ghost seen_after = seen.push(observed);
        proof {
            assert(after.drop_last() =~= before);
            assert(after.last() == *record);
            assert(seen_after.drop_last() =~= seen);
            assert forall|i: int| 0 <= i < after.len() implies (record_model(#[trigger] after[i]).1 matches Some(
                run,
            ) ==> is_active(after[i].job@.state) && !run.state.terminal() ==> possible_observation(
                run,
                boot_identity@,
                seen_after[i],
            )) by {
                if i < index {
                    assert(before[i] == after[i]);
                    assert(seen[i] == seen_after[i]);
                }
            }
            assert forall|i: int| 0 <= i < after.len() implies (record_model(#[trigger] after[i]).1 matches Some(
                run,
            ) ==> is_active(after[i].job@.state) && !run.state.terminal() ==> run_observed(
                *inspector,
                run,
                boot_identity@,
                seen_after[i],
            )) by {
                if i < index {
                    assert(before[i] == after[i]);
                    assert(seen[i] == seen_after[i]);
                }
            }
        }
        if state.is_terminal() {
            proof {
                lemma_error_persists(
                    records@,
                    seen_after,
                    boot_identity@,
                    wall_now@,
                    elapsed_now@ as int,
                    index + 1,
                );
            }
            return Err(ReconciliationError::TerminalJobLoaded(record.job.id()));
        }
        if active {
            reconcile_active(record, observed, &mut plan);
        } else {
            if record.active_run.is_some() {
                proof {
                    lemma_error_persists(
                        records@,
                        seen_after,
                        boot_identity@,
                        wall_now@,
                        elapsed_now@ as int,
                        index + 1,
                    );
                }
                return Err(ReconciliationError::UnexpectedActiveRun(record.job.id()));
            }
            match reconcile_waiting(record, wall_now, elapsed_now, &mut plan) {
                Ok(_) => {},
                Err(error) => {
                    proof {
                        lemma_error_persists(
                            records@,
                            seen_after,
                            boot_identity@,
                            wall_now@,
                            elapsed_now@ as int,
                            index + 1,
                        );
                    }
                    return Err(error);
                },
            }
        }
        proof {
            seen = seen_after;
        }
        index += 1;
    }
    let ghost all = plan@;
    assert(records@.take(records@.len() as int) =~= records@);
    let ordered = RecoveryPlan {
        deadlines: sort_deadlines(&plan.deadlines),
        preserved_runs: sort_runs(&plan.preserved_runs),
        actions: plan.actions,
    };
    proof {
        assert(plan_outcome(records@, seen, wall_now@, elapsed_now@ as int, Ok(ordered)));
    }
    Ok(ordered)
}

/// An error of one of the first records is the error of all of them, whatever is seen later.
proof fn lemma_error_persists(
    records: Seq<RecoveryRecord>,
    seen: Seq<RunObservation>,
    boot_identity: Seq<char>,
    wall_now: int,
    elapsed_now: int,
    len: int,
)
    requires
        0 <= len <= records.len(),
        possible_observations(records.take(len), seen, boot_identity),
        gathered(records.take(len), seen, wall_now, elapsed_now) is Err,
    ensures
        exists|all: Seq<RunObservation>|
            {
                &&& possible_observations(records, all, boot_identity)
                &&& #[trigger] gathered(records, all, wall_now, elapsed_now) == gathered(
                    records.take(len),
                    seen,
                    wall_now,
                    elapsed_now,
                )
                &&& plan_outcome(
                    records,
                    all,
                    wall_now,
                    elapsed_now,
                    Err(gathered(records.take(len), seen, wall_now, elapsed_now)->Err_0),
                )
            },
    decreases records.len() - len,
{
    let error = gathered(records.take(len), seen, wall_now, elapsed_now);
    if len == records.len() {
        assert(records.take(len) =~= records);
        assert(gathered(records, seen, wall_now, elapsed_now) == error);
        assert(plan_outcome(records, seen, wall_now, elapsed_now, Err(error->Err_0)));
    } else {
        let next = records.take(len + 1);
        let record = records[len];
        let guess = match record_model(record).1 {
            Some(run) => RunObservation {
                command_fate: match run.command_identity {
                    None => CommandFate::Unknown,
                    Some(_) => CommandFate::Changed,
                },
                monitor_alive: false,
            },
            None => RunObservation { command_fate: CommandFate::Unknown, monitor_alive: false },
        };
        let more = seen.push(guess);
        assert(next.drop_last() =~= records.take(len));
        assert(more.drop_last() =~= seen);
        assert forall|i: int| 0 <= i < next.len() implies (record_model(#[trigger] next[i]).1 matches Some(
            run,
        ) ==> is_active(next[i].job@.state) && !run.state.terminal() ==> possible_observation(
            run,
            boot_identity,
            more[i],
        )) by {
            if i < len {
                assert(records.take(len)[i] == next[i]);
                assert(seen[i] == more[i]);
            }
        }
        assert(gathered(next, more, wall_now, elapsed_now) == error);
        lemma_error_persists(records, more, boot_identity, wall_now, elapsed_now, len + 1);
    }
}

// ---------------------------------------------------------------------------------------------
// Sorting
// ---------------------------------------------------------------------------------------------
proof fn lemma_insert_multiset<A>(s: Seq<A>, at: int, value: A)
    requires
        0 <= at <= s.len(),
    ensures
        s.insert(at, value).to_multiset() == s.to_multiset().insert(value),
{
    broadcast use group_to_multiset_ensures;

    let t = s.insert(at, value);
    assert(t.remove(at) =~= s);
    assert(t[at] == value);
    assert(t.contains(value));
    assert(s.to_multiset() =~= t.to_multiset().remove(value));
    assert(t.to_multiset() =~= s.to_multiset().insert(value));
}

spec fn models(deadlines: Seq<RecoveredDeadline>) -> Seq<DeadlineModel> {
    deadlines.map_values(|deadline: RecoveredDeadline| deadline@)
}

fn sort_deadlines(deadlines: &Vec<RecoveredDeadline>) -> (r: Vec<RecoveredDeadline>)
    ensures
        models(r@).to_multiset() == models(deadlines@).to_multiset(),
        forall|i: int, j: int|
            0 <= i <= j < models(r@).len() ==> deadline_ordered(
                #[trigger] models(r@)[i],
                #[trigger] models(r@)[j],
            ),
{
    let mut sorted: Vec<RecoveredDeadline> = Vec::new();
    let mut index: usize = 0;
    assert(models(deadlines@).take(0) =~= models(sorted@));
    while index < deadlines.len()
        invariant
            index <= deadlines@.len(),
            models(sorted@).to_multiset() == models(deadlines@).take(index as int).to_multiset(),
            forall|i: int, j: int|
                0 <= i <= j < models(sorted@).len() ==> deadline_ordered(
                    #[trigger] models(sorted@)[i],
                    #[trigger] models(sorted@)[j],
                ),
        decreases deadlines@.len() - index,
    {
        let next: RecoveredDeadline = deadlines[index];
        let mut at: usize = 0;
        while at < sorted.len() && (sorted[at].elapsed_due.as_nanos() < next.elapsed_due.as_nanos()
            || (sorted[at].elapsed_due.as_nanos() == next.elapsed_due.as_nanos()
            && sorted[at].job_id.as_u128() <= next.job_id.as_u128()))
            invariant
                at <= sorted@.len(),
                forall|i: int| 0 <= i < at ==> deadline_ordered(#[trigger] models(sorted@)[i], next@),
            decreases sorted@.len() - at,
        {
            assert(models(sorted@)[at as int] == sorted@[at as int]@);
            at += 1;
        }
        let ghost before = models(sorted@);
        proof {
            if at < sorted@.len() {
                assert(before[at as int] == sorted@[at as int]@);
            }
            lemma_insert_multiset(before, at as int, next@);
            assert(models(sorted@.insert(at as int, next)) =~= before.insert(at as int, next@));
            let all = models(deadlines@);
            assert(all.take(index + 1) =~= all.take(index as int).push(all[index as int]));
            broadcast use group_to_multiset_ensures;

        }
        sorted.insert(at, next);
        let ghost after = models(sorted@);
        proof {
            assert(after =~= before.insert(at as int, next@));
            assert forall|i: int, j: int| 0 <= i <= j < after.len() implies deadline_ordered(
                #[trigger] after[i],
                #[trigger] after[j],
            ) by {
                let oi = if i < at {
                    i
                } else {
                    i - 1
                };
                let oj = if j < at {
                    j
                } else {
                    j - 1
                };
                if i != at && j != at {
                    assert(deadline_ordered(before[oi], before[oj]));
                } else if i == at && j > at {
                    assert(deadline_ordered(before[at as int], before[oj]));
                } else if j == at && i < at {
                    assert(deadline_ordered(before[oi], next@));
                }
            }
        }
        index += 1;
    }
    assert(models(deadlines@).take(deadlines@.len() as int) =~= models(deadlines@));
    sorted
}

fn sort_runs(runs: &Vec<RunId>) -> (r: Vec<RunId>)
    ensures
        r@.to_multiset() == runs@.to_multiset(),
        forall|i: int, j: int|
            0 <= i <= j < r@.len() ==> (#[trigger] r@[i])@ <= (#[trigger] r@[j])@,
{
    let mut sorted: Vec<RunId> = Vec::new();
    let mut index: usize = 0;
    assert(runs@.take(0) =~= sorted@);
    while index < runs.len()
        invariant
            index <= runs@.len(),
            sorted@.to_multiset() == runs@.take(index as int).to_multiset(),
            forall|i: int, j: int|
                0 <= i <= j < sorted@.len() ==> (#[trigger] sorted@[i])@ <= (#[trigger] sorted@[j])@,
        decreases runs@.len() - index,
    {
        let next: RunId = runs[index];
        let mut at: usize = 0;
        while at < sorted.len() && sorted[at].as_u128() <= next.as_u128()
            invariant
                at <= sorted@.len(),
                forall|i: int| 0 <= i < at ==> (#[trigger] sorted@[i])@ <= next@,
            decreases sorted@.len() - at,
        {
            at += 1;
        }
        let ghost before = sorted@;
        proof {
            lemma_insert_multiset(before, at as int, next);
            assert(runs@.take(index + 1) =~= runs@.take(index as int).push(runs@[index as int]));
            broadcast use group_to_multiset_ensures;

        }
        sorted.insert(at, next);
        proof {
            let after = sorted@;
            assert(after =~= before.insert(at as int, next));
            assert forall|i: int, j: int| 0 <= i <= j < after.len() implies (#[trigger] after[i])@
                <= (#[trigger] after[j])@ by {
                let oi = if i < at {
                    i
                } else {
                    i - 1
                };
                let oj = if j < at {
                    j
                } else {
                    j - 1
                };
                if i != at && j != at {
                    assert(before[oi]@ <= before[oj]@);
                } else if i == at && j > at {
                    assert(before[at as int]@ <= before[oj]@);
                } else if j == at && i < at {
                    assert(before[oi]@ <= next@);
                }
            }
        }
        index += 1;
    }
    assert(runs@.take(runs@.len() as int) =~= runs@);
    sorted
}

/// What came back during recovery, and the store once the plan was applied.
pub struct RecoveryAnswers<Store> {
    pub loaded: Result<Vec<RecoveryRecord>, RecoveryStoreError>,
    pub planned: Result<RecoveryPlan, ReconciliationError>,
    pub applied: Result<(), RecoveryStoreError>,
    pub after_plan: Store,
    pub cleaned: Result<(), RecoveryStoreError>,
}

impl<Store: RecoveryStore> RecoveryAnswers<Store> {
    /// The plan is handed to the store: the jobs were loaded, and a plan was made.
    pub open spec fn applies(self) -> bool {
        self.loaded is Ok && self.planned is Ok
    }

    /// The store is asked to clean up: the plan was applied.
    pub open spec fn cleans(self) -> bool {
        self.applies() && self.applied is Ok
    }
}

/// The result is what recovery gives with the answers: the plan for the jobs that were loaded, once
/// it was applied and the store was cleaned up.
pub open spec fn startup_outcome<Store: RecoveryStore, Inspector: IdentityInspector>(
    store: Store,
    inspector: Inspector,
    wall_now: UtcTimestamp,
    elapsed_now: ElapsedInstant,
    boot_identity: Seq<char>,
    answers: RecoveryAnswers<Store>,
    r: Result<RecoveryPlan, StartupReconciliationError>,
) -> bool {
    let store_error = |error: RecoveryStoreError|
        Err::<RecoveryPlan, StartupReconciliationError>(StartupReconciliationError::Store(error));
    &&& call_ensures(Store::load_nonterminal, (&store,), answers.loaded)
    &&& match answers.loaded {
        Err(error) => r == store_error(error),
        Ok(records) => {
            &&& recovery_planned(
                inspector,
                records@,
                wall_now,
                elapsed_now,
                boot_identity,
                answers.planned,
            )
            &&& match answers.planned {
                Err(error) => r == Err::<RecoveryPlan, StartupReconciliationError>(
                    StartupReconciliationError::Plan(error),
                ),
                Ok(plan) => match answers.applied {
                    Err(error) => r == store_error(error),
                    Ok(_) => match answers.cleaned {
                        Err(error) => r == store_error(error),
                        Ok(_) => r == Ok::<RecoveryPlan, StartupReconciliationError>(plan),
                    },
                },
            }
        },
    }
}

/// Recovers after a restart: loads the jobs that are not done, plans, and applies the plan. The plan
/// is applied once, and only then is the store cleaned up.
pub fn reconcile_startup<Store: RecoveryStore, Inspector: IdentityInspector>(
    store: &mut Store,
    inspector: &Inspector,
    wall_now: UtcTimestamp,
    elapsed_now: ElapsedInstant,
    boot_identity: &str,
) -> (r: Result<RecoveryPlan, StartupReconciliationError>)
    ensures
        exists|answers: RecoveryAnswers<Store>|
            {
                &&& #[trigger] startup_outcome(
                    *old(store),
                    *inspector,
                    wall_now,
                    elapsed_now,
                    boot_identity@,
                    answers,
                    r,
                )
                &&& if answers.applies() {
                    exists|at: &mut Store|
                        {
                            &&& #[trigger] call_ensures(
                                Store::apply_recovery,
                                (at, &answers.planned->Ok_0.actions, wall_now),
                                answers.applied,
                            )
                            &&& *at == *old(store)
                            &&& *final(at) == answers.after_plan
                        }
                } else {
                    answers.after_plan == *old(store)
                }
                &&& if answers.cleans() {
                    exists|at: &mut Store|
                        {
                            &&& #[trigger] call_ensures(
                                Store::cleanup_recovery,
                                (at, wall_now),
                                answers.cleaned,
                            )
                            &&& *at == answers.after_plan
                            &&& *final(at) == *final(store)
                        }
                } else {
                    *final(store) == answers.after_plan
                }
            },
{
    let ghost before = *store;
    let ghost mut answers: RecoveryAnswers<Store> = arbitrary();
    let loaded: Result<Vec<RecoveryRecord>, RecoveryStoreError> = store.load_nonterminal();
    proof {
        answers.loaded = loaded;
        answers.after_plan = before;
    }
    let records: Vec<RecoveryRecord> = match loaded {
        Ok(records) => records,
        Err(error) => {
            let r: Result<RecoveryPlan, StartupReconciliationError> = Err(
                StartupReconciliationError::Store(error),
            );
            assert(startup_outcome(
                before,
                *inspector,
                wall_now,
                elapsed_now,
                boot_identity@,
                answers,
                r,
            ));
            return r;
        },
    };
    let planned: Result<RecoveryPlan, ReconciliationError> = plan_recovery(
        records.as_slice(),
        inspector,
        wall_now,
        elapsed_now,
        boot_identity,
    );
    proof {
        answers.planned = planned;
    }
    let plan: RecoveryPlan = match planned {
        Ok(plan) => plan,
        Err(error) => {
            let r: Result<RecoveryPlan, StartupReconciliationError> = Err(
                StartupReconciliationError::Plan(error),
            );
            assert(startup_outcome(
                before,
                *inspector,
                wall_now,
                elapsed_now,
                boot_identity@,
                answers,
                r,
            ));
            return r;
        },
    };
    let applied: Result<(), RecoveryStoreError> = store.apply_recovery(&plan.actions, wall_now);
    proof {
        answers.applied = applied;
        answers.after_plan = *store;
    }
    match applied {
        Ok(_) => {},
        Err(error) => {
            let r: Result<RecoveryPlan, StartupReconciliationError> = Err(
                StartupReconciliationError::Store(error),
            );
            assert(startup_outcome(
                before,
                *inspector,
                wall_now,
                elapsed_now,
                boot_identity@,
                answers,
                r,
            ));
            return r;
        },
    }
    let cleaned: Result<(), RecoveryStoreError> = store.cleanup_recovery(wall_now);
    proof {
        answers.cleaned = cleaned;
    }
    let r: Result<RecoveryPlan, StartupReconciliationError> = match cleaned {
        Ok(_) => Ok(plan),
        Err(error) => Err(StartupReconciliationError::Store(error)),
    };
    assert(startup_outcome(
        before,
        *inspector,
        wall_now,
        elapsed_now,
        boot_identity@,
        answers,
        r,
    ));
    r
}

} // verus!
