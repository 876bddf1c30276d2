//! Job aggregate.
use vstd::prelude::*;

use super::execution::{ExecutionModel, ExecutionSpec};
use super::id::{is_fresh, JobId};
use super::primitives::{
    primitive_message, Description, Name, PrimitiveError, Revision, UtcTimestamp,
};
use super::schedule::{MissedPolicy, RuntimeTier, Schedule, ScheduleError, ScheduleModel};
use super::state::JobState;
use super::transition::{
    job_legal, job_transition, transition_error_message, transition_outcome, valid_reason,
    Transition, TransitionActor, TransitionError,
};
use crate::text::{contains_char, copy_text};

verus! {

/// Why a job was refused.
#[derive(Clone, Copy, Debug, PartialEq, Eq)]
pub enum JobError {
    /// A small value is not valid.
    Primitive(PrimitiveError),
    /// The schedule is not valid.
    Schedule(ScheduleError),
    /// The change of state is not allowed.
    Transition(TransitionError),
    /// The stored fields contradict each other.
    CorruptSnapshot,
    /// The update would come before the last one.
    TimeMovedBackward,
}

/// The message of a job error.
pub open spec fn job_error_message(error: JobError) -> Seq<char> {
    match error {
        JobError::Primitive(inner) => primitive_message(inner),
        JobError::Schedule(_) => "the resolved deadline must be in the future"@,
        JobError::Transition(inner) => transition_error_message(inner),
        JobError::CorruptSnapshot => "stored job snapshot violates domain invariants"@,
        JobError::TimeMovedBackward => "job update time cannot move backward"@,
    }
}

impl JobError {
    /// The error as a message.
    pub fn to_string(&self) -> (text: String)
        ensures
            text@ == job_error_message(*self),
    {
        match self {
            JobError::Primitive(inner) => inner.to_string(),
            JobError::Schedule(inner) => inner.to_string(),
            JobError::Transition(inner) => inner.to_string(),
            JobError::CorruptSnapshot => {
                "stored job snapshot violates domain invariants".to_owned()
            },
            JobError::TimeMovedBackward => "job update time cannot move backward".to_owned(),
        }
    }
}

/// A job with its texts as character sequences.
pub struct JobModel {
    pub id: JobId,
    pub revision: Revision,
    pub name: Option<Seq<char>>,
    pub description: Option<Seq<char>>,
    pub created_at_utc: UtcTimestamp,
    pub updated_at_utc: UtcTimestamp,
    pub state: JobState,
    pub runtime_tier: RuntimeTier,
    pub schedule: ScheduleModel,
    pub missed_policy: MissedPolicy,
    pub execution: ExecutionModel,
    pub next_due_utc: UtcTimestamp,
    pub timezone_database_version: Seq<char>,
    pub owner_uid: u32,
}

/// The fields of a stored job do not contradict each other.
pub open spec fn consistent_job(job: JobModel) -> bool {
    &&& job.created_at_utc@ <= job.updated_at_utc@
    &&& job.timezone_database_version.len() > 0
    &&& !job.timezone_database_version.contains('\0')
}

/// The name as a character sequence.
pub open spec fn name_text(name: Option<Name>) -> Option<Seq<char>> {
    match name {
        Some(inner) => Some(inner@),
        None => None,
    }
}

/// The description as a character sequence.
pub open spec fn description_text(description: Option<Description>) -> Option<Seq<char>> {
    match description {
        Some(inner) => Some(inner@),
        None => None,
    }
}

/// A scheduled command with its state.
#[derive(PartialEq, Eq)]
pub struct Job {
    id: JobId,
    revision: Revision,
    name: Option<Name>,
    description: Option<Description>,
    created_at_utc: UtcTimestamp,
    updated_at_utc: UtcTimestamp,
    state: JobState,
    runtime_tier: RuntimeTier,
    schedule: Schedule,
    missed_policy: MissedPolicy,
    execution: ExecutionSpec,
    next_due_utc: UtcTimestamp,
    timezone_database_version: String,
    owner_uid: u32,
}

/// The fields of a job.
#[derive(PartialEq, Eq)]
pub struct JobSnapshot {
    pub id: JobId,
    pub revision: Revision,
    pub name: Option<Name>,
    pub description: Option<Description>,
    pub created_at_utc: UtcTimestamp,
    pub updated_at_utc: UtcTimestamp,
    pub state: JobState,
    pub runtime_tier: RuntimeTier,
    pub schedule: Schedule,
    pub missed_policy: MissedPolicy,
    pub execution: ExecutionSpec,
    pub next_due_utc: UtcTimestamp,
    pub timezone_database_version: String,
    pub owner_uid: u32,
}

impl View for Job {
    type V = JobModel;

    closed spec fn view(&self) -> JobModel {
        JobModel {
            id: self.id,
            revision: self.revision,
            name: name_text(self.name),
            description: description_text(self.description),
            created_at_utc: self.created_at_utc,
            updated_at_utc: self.updated_at_utc,
            state: self.state,
            runtime_tier: self.runtime_tier,
            schedule: self.schedule@,
            missed_policy: self.missed_policy,
            execution: self.execution@,
            next_due_utc: self.next_due_utc,
            timezone_database_version: self.timezone_database_version@,
            owner_uid: self.owner_uid,
        }
    }
}

impl View for JobSnapshot {
    type V = JobModel;

    open spec fn view(&self) -> JobModel {
        JobModel {
            id: self.id,
            revision: self.revision,
            name: name_text(self.name),
            description: description_text(self.description),
            created_at_utc: self.created_at_utc,
            updated_at_utc: self.updated_at_utc,
            state: self.state,
            runtime_tier: self.runtime_tier,
            schedule: self.schedule@,
            missed_policy: self.missed_policy,
            execution: self.execution@,
            next_due_utc: self.next_due_utc,
            timezone_database_version: self.timezone_database_version@,
            owner_uid: self.owner_uid,
        }
    }
}

/// A copy of an optional name.
pub fn copy_name(name: &Option<Name>) -> (r: Option<Name>)
    ensures
        name_text(r) == name_text(*name),
{
    match name {
        Some(inner) => Some(inner.clone()),
        None => None,
    }
}

/// A copy of an optional description.
pub fn copy_description(description: &Option<Description>) -> (r: Option<Description>)
    ensures
        description_text(r) == description_text(*description),
{
    match description {
        Some(inner) => Some(inner.clone()),
        None => None,
    }
}

/// A change of a job's state: the reason for refusing it, if any.
pub open spec fn job_update_fault(
    job: JobModel,
    to: JobState,
    recurring: bool,
    reason: Seq<char>,
    now: UtcTimestamp,
) -> Option<JobError> {
    if now@ < job.updated_at_utc@ {
        Some(JobError::TimeMovedBackward)
    } else if !job_legal(job.state, to, recurring) {
        Some(JobError::Transition(TransitionError::Illegal))
    } else if !valid_reason(reason) {
        Some(JobError::Transition(TransitionError::InvalidReason))
    } else if job.revision@ == u64::MAX {
        Some(JobError::Primitive(PrimitiveError::Overflow { field: "revision" }))
    } else {
        None
    }
}

/// A job after a change of its state: state, time and revision move, nothing else does.
pub open spec fn job_updated(before: JobModel, after: JobModel, to: JobState, now: UtcTimestamp) -> bool {
    &&& after.revision@ == before.revision@ + 1
    &&& after == (JobModel { revision: after.revision, state: to, updated_at_utc: now, ..before })
}

impl Job {
    /// A job that is submitted now: scheduled, at its first revision, with a fresh identifier.
    pub fn new(
        now: UtcTimestamp,
        schedule: Schedule,
        missed_policy: MissedPolicy,
        runtime_tier: RuntimeTier,
        execution: ExecutionSpec,
        owner_uid: u32,
    ) -> (r: Result<Job, JobError>)
        ensures
            if schedule@.next_due()@ <= now@ {
                r == Err::<Job, JobError>(JobError::Schedule(ScheduleError::DeadlineNotFuture))
            } else {
                r matches Ok(job) && {
                    &&& is_fresh(job@.id@)
                    &&& job@.revision@ == 1
                    &&& job@ == (JobModel {
                        id: job@.id,
                        revision: job@.revision,
                        name: None,
                        description: None,
                        created_at_utc: now,
                        updated_at_utc: now,
                        state: JobState::Scheduled,
                        runtime_tier,
                        schedule: schedule@,
                        missed_policy,
                        execution: execution@,
                        next_due_utc: schedule@.next_due(),
                        timezone_database_version: schedule@.database_version(),
                        owner_uid,
                    })
                }
            },
    {
        let next_due_utc: UtcTimestamp = schedule.next_due_utc();
        if !now.is_before(next_due_utc) {
            return Err(JobError::Schedule(ScheduleError::DeadlineNotFuture));
        }
        let revision: Revision = match Revision::new(1) {
            Ok(revision) => revision,
            Err(error) => {
                return Err(JobError::Primitive(error));
            },
        };
        let timezone_database_version: String = copy_text(schedule.timezone_database_version());
        Ok(
            Job {
                id: JobId::new(),
                revision,
                name: None,
                description: None,
                created_at_utc: now,
                updated_at_utc: now,
                state: JobState::Scheduled,
                runtime_tier,
                schedule,
                missed_policy,
                execution,
                next_due_utc,
                timezone_database_version,
                owner_uid,
            },
        )
    }

    pub fn id(&self) -> (r: JobId)
        ensures
            r == self@.id,
    {
        self.id
    }

    pub fn revision(&self) -> (r: Revision)
        ensures
            r == self@.revision,
    {
        self.revision
    }

    pub fn state(&self) -> (r: JobState)
        ensures
            r == self@.state,
    {
        self.state
    }

    pub fn next_due_utc(&self) -> (r: UtcTimestamp)
        ensures
            r == self@.next_due_utc,
    {
        self.next_due_utc
    }

    pub fn runtime_tier(&self) -> (r: RuntimeTier)
        ensures
            r == self@.runtime_tier,
    {
        self.runtime_tier
    }

    pub fn schedule(&self) -> (r: &Schedule)
        ensures
            r@ == self@.schedule,
    {
        &self.schedule
    }

    pub fn missed_policy(&self) -> (r: MissedPolicy)
        ensures
            r == self@.missed_policy,
    {
        self.missed_policy
    }

    pub fn execution(&self) -> (r: &ExecutionSpec)
        ensures
            r@ == self@.execution,
    {
        &self.execution
    }

    /// Sets the display name and the note.
    pub fn set_metadata(&mut self, name: Option<Name>, description: Option<Description>)
        ensures
            final(self)@ == (JobModel {
                name: name_text(name),
                description: description_text(description),
                ..old(self)@
            }),
    {
        self.name = name;
        self.description = description;
    }

    /// The fields of the job.
    pub fn snapshot(&self) -> (r: JobSnapshot)
        ensures
            r@ == self@,
    {
        JobSnapshot {
            id: self.id,
            revision: self.revision,
            name: copy_name(&self.name),
            description: copy_description(&self.description),
            created_at_utc: self.created_at_utc,
            updated_at_utc: self.updated_at_utc,
            state: self.state,
            runtime_tier: self.runtime_tier,
            schedule: self.schedule.clone(),
            missed_policy: self.missed_policy,
            execution: self.execution.clone(),
            next_due_utc: self.next_due_utc,
            timezone_database_version: copy_text(self.timezone_database_version.as_str()),
            owner_uid: self.owner_uid,
        }
    }

    /// The job with the given fields, unless they contradict each other.
    pub fn rehydrate(snapshot: JobSnapshot) -> (r: Result<Job, JobError>)
        ensures
            if consistent_job(snapshot@) {
                r matches Ok(job) && job@ == snapshot@
            } else {
                r == Err::<Job, JobError>(JobError::CorruptSnapshot)
            },
    {
        let version: &str = snapshot.timezone_database_version.as_str();
        if snapshot.updated_at_utc.is_before(snapshot.created_at_utc) || version.unicode_len() == 0
            || contains_char(version, '\0') {
            return Err(JobError::CorruptSnapshot);
        }
        Ok(
            Job {
                id: snapshot.id,
                revision: snapshot.revision,
                name: snapshot.name,
                description: snapshot.description,
                created_at_utc: snapshot.created_at_utc,
                updated_at_utc: snapshot.updated_at_utc,
                state: snapshot.state,
                runtime_tier: snapshot.runtime_tier,
                schedule: snapshot.schedule,
                missed_policy: snapshot.missed_policy,
                execution: snapshot.execution,
                next_due_utc: snapshot.next_due_utc,
                timezone_database_version: snapshot.timezone_database_version,
                owner_uid: snapshot.owner_uid,
            },
        )
    }

    /// Changes the state of the job; a refused change leaves it as it was.
    pub fn transition(
        &mut self,
        to: JobState,
        recurring: bool,
        actor: TransitionActor,
        reason: &str,
        now: UtcTimestamp,
    ) -> (r: Result<Transition<JobState>, JobError>)
        ensures
            match job_update_fault(old(self)@, to, recurring, reason@, now) {
                Some(error) => r == Err::<Transition<JobState>, JobError>(error) && final(self)@
                    == old(self)@,
                None => r matches Ok(transition) && {
                    &&& transition_outcome(
                        old(self)@.state,
                        to,
                        actor,
                        reason@,
                        true,
                        Ok(transition),
                    )
                    &&& job_updated(old(self)@, final(self)@, to, now)
                },
            },
    {
        if now.is_before(self.updated_at_utc) {
            return Err(JobError::TimeMovedBackward);
        }
        let transition: Transition<JobState> = match job_transition(
            self.state,
            to,
            recurring,
            actor,
            reason,
        ) {
            Ok(transition) => transition,
            Err(error) => {
                return Err(JobError::Transition(error));
            },
        };
        let revision: Revision = match self.revision.next() {
            Ok(revision) => revision,
            Err(error) => {
                return Err(JobError::Primitive(error));
            },
        };
        self.revision = revision;
        self.state = to;
        self.updated_at_utc = now;
        Ok(transition)
    }
}

impl Clone for Job {
    fn clone(&self) -> (r: Job)
        ensures
            r@ == self@,
    {
        Job {
            id: self.id,
            revision: self.revision,
            name: copy_name(&self.name),
            description: copy_description(&self.description),
            created_at_utc: self.created_at_utc,
            updated_at_utc: self.updated_at_utc,
            state: self.state,
            runtime_tier: self.runtime_tier,
            schedule: self.schedule.clone(),
            missed_policy: self.missed_policy,
            execution: self.execution.clone(),
            next_due_utc: self.next_due_utc,
            timezone_database_version: copy_text(self.timezone_database_version.as_str()),
            owner_uid: self.owner_uid,
        }
    }
}

/// Whatever changes of state a job goes through, it can be stored and loaded again if it could
/// before, and its creation time, owner, schedule and command stay the same.
pub proof fn lemma_update_keeps_job(before: JobModel, after: JobModel, to: JobState, now: UtcTimestamp)
    requires
        now@ >= before.updated_at_utc@,
        job_updated(before, after, to, now),
    ensures
        consistent_job(before) ==> consistent_job(after),
        after.id == before.id,
        after.created_at_utc == before.created_at_utc,
        after.owner_uid == before.owner_uid,
        after.schedule == before.schedule,
        after.execution == before.execution,
        after.next_due_utc == before.next_due_utc,
        after.revision@ > before.revision@,
{
}

} // verus!
