//! Job-submission application service.
use vstd::prelude::*;

use crate::domain::id::JobId;
use crate::domain::job::Job;
use crate::domain::primitives::Revision;
use crate::text::push_text;

verus! {

/// Why a job could not be saved.
#[derive(Debug, PartialEq, Eq)]
pub struct SubmissionStoreError(pub String);

/// Why the supervisor did not take a job over.
#[derive(Debug, PartialEq, Eq)]
pub struct SupervisorAckError(pub String);

impl SupervisorAckError {
    /// The error as a message.
    pub fn to_string(&self) -> (text: String)
        ensures
            text@ == "supervisor did not acknowledge job: "@ + self.0@,
    {
        let mut out: String = "supervisor did not acknowledge job: ".to_owned();
        push_text(&mut out, self.0.as_str());
        out
    }
}

/// Where jobs are saved.
pub trait SubmissionStore {
    fn create_job(&mut self, job: &Job) -> Result<(), SubmissionStoreError>;
}

/// Tells the supervisor of a job.
pub trait SupervisorAcknowledger {
    fn acknowledge(&mut self, job_id: JobId, revision: Revision) -> Result<(), SupervisorAckError>;
}

/// What came of a submission.
pub enum SubmissionOutcome {
    /// The job is valid; nothing was saved.
    DryRun(Job),
    /// The job was saved and the supervisor has it.
    Supervised(Job),
    /// The job was saved, but the supervisor did not answer.
    CommittedUnsupervised { job: Job, error: SupervisorAckError },
}

impl SubmissionOutcome {
    pub open spec fn spec_job(self) -> Job {
        match self {
            SubmissionOutcome::DryRun(job) => job,
            SubmissionOutcome::Supervised(job) => job,
            SubmissionOutcome::CommittedUnsupervised { job, .. } => job,
        }
    }

    /// The submitted job.
    pub fn job(&self) -> (r: &Job)
        ensures
            *r == self.spec_job(),
    {
        match self {
            SubmissionOutcome::DryRun(job) => job,
            SubmissionOutcome::Supervised(job) => job,
            SubmissionOutcome::CommittedUnsupervised { job, .. } => job,
        }
    }

    /// Whether the supervisor has the job.
    pub fn is_supervised(&self) -> (r: bool)
        ensures
            r == (self is Supervised),
    {
        match self {
            SubmissionOutcome::Supervised(_) => true,
            _ => false,
        }
    }

    /// Whether nothing was saved.
    pub fn is_dry_run(&self) -> (r: bool)
        ensures
            r == (self is DryRun),
    {
        match self {
            SubmissionOutcome::DryRun(_) => true,
            _ => false,
        }
    }
}

/// Why a submission failed.
#[derive(Debug, PartialEq, Eq)]
pub enum SubmitError {
    Store(SubmissionStoreError),
}

impl SubmitError {
    pub open spec fn spec_detail(self) -> Seq<char> {
        match self {
            SubmitError::Store(inner) => inner.0@,
        }
    }

    /// The error as a message.
    pub fn to_string(&self) -> (text: String)
        ensures
            text@ == "submission storage failed: "@ + self.spec_detail(),
    {
        let mut out: String = "submission storage failed: ".to_owned();
        match self {
            SubmitError::Store(inner) => {
                push_text(&mut out, inner.0.as_str());
            },
        }
        out
    }
}

/// What came of a saved job, with the supervisor's answer. A missing answer does not undo the
/// submission.
pub fn committed_outcome(job: Job, answer: Result<(), SupervisorAckError>) -> (r: SubmissionOutcome)
    ensures
        r == match answer {
            Ok(_) => SubmissionOutcome::Supervised(job),
            Err(error) => SubmissionOutcome::CommittedUnsupervised { job, error },
        },
{
    match answer {
        Ok(_) => SubmissionOutcome::Supervised(job),
        Err(error) => SubmissionOutcome::CommittedUnsupervised { job, error },
    }
}

/// What came back of a submission: whether the job was saved, and what the supervisor answered to
/// one that was.
pub struct SubmitAnswers {
    pub saved: Result<(), SubmissionStoreError>,
    pub told: Result<(), SupervisorAckError>,
}

/// What a submission gives with the answers.
pub open spec fn submitted_as(job: Job, answers: SubmitAnswers) -> Result<
    SubmissionOutcome,
    SubmitError,
> {
    match answers.saved {
        Err(error) => Err(SubmitError::Store(error)),
        Ok(_) => match answers.told {
            Ok(_) => Ok(SubmissionOutcome::Supervised(job)),
            Err(error) => Ok(SubmissionOutcome::CommittedUnsupervised { job, error }),
        },
    }
}

/// Saves a job and hands it to the supervisor; a dry run does neither. A job is saved once, and only
/// a saved one is handed over.
pub fn submit_job<Store: SubmissionStore, Acknowledger: SupervisorAcknowledger>(
    store: &mut Store,
    acknowledger: &mut Acknowledger,
    job: Job,
    dry_run: bool,
) -> (r: Result<SubmissionOutcome, SubmitError>)
    ensures
        dry_run ==> {
            &&& r == Ok::<SubmissionOutcome, SubmitError>(SubmissionOutcome::DryRun(job))
            &&& *final(store) == *old(store)
            &&& *final(acknowledger) == *old(acknowledger)
        },
        !dry_run ==> exists|answers: SubmitAnswers|
            {
                &&& r == #[trigger] submitted_as(job, answers)
                &&& exists|at: &mut Store|
                    {
                        &&& #[trigger] call_ensures(Store::create_job, (at, &job), answers.saved)
                        &&& *at == *old(store)
                        &&& *final(at) == *final(store)
                    }
                &&& if answers.saved is Err {
                    *final(acknowledger) == *old(acknowledger)
                } else {
                    exists|to: &mut Acknowledger|
                        {
                            &&& #[trigger] call_ensures(
                                Acknowledger::acknowledge,
                                (to, job@.id, job@.revision),
                                answers.told,
                            )
                            &&& *to == *old(acknowledger)
                            &&& *final(to) == *final(acknowledger)
                        }
                }
            },
{
    if dry_run {
        return Ok(SubmissionOutcome::DryRun(job));
    }
    let ghost mut answers: SubmitAnswers = arbitrary();
    let saved: Result<(), SubmissionStoreError> = store.create_job(&job);
    proof {
        answers.saved = saved;
    }
    match saved {
        Ok(_) => {},
        Err(error) => {
            let r: Result<SubmissionOutcome, SubmitError> = Err(SubmitError::Store(error));
            assert(r == submitted_as(job, answers));
            return r;
        },
    }
    let told: Result<(), SupervisorAckError> = acknowledger.acknowledge(job.id(), job.revision());
    proof {
        answers.told = told;
    }
    let r: Result<SubmissionOutcome, SubmitError> = Ok(committed_outcome(job, told));
    assert(r == submitted_as(job, answers));
    r
}

} // verus!
