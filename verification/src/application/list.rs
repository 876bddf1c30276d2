//! Job management application services.
use vstd::prelude::*;

use crate::domain::id::{push_uuid, symbol_digit, uuid_text, JobId};
use crate::domain::job::{Job, JobModel};
use crate::domain::primitives::{Revision, UtcTimestamp};
use crate::domain::run::{Run, RunModel};
use crate::domain::state::JobState;
use crate::text::{chars_of, copy_text, push_text};

verus! {

broadcast use vstd::seq::group_seq_axioms;

/// The most results of one request.
pub const MAX_MANAGEMENT_RESULTS: usize = 1_000;

/// The longest prefix of an identifier, in characters.
pub const MAX_PREFIX_CHARS: usize = 26;

/// Why stored jobs could not be read or changed.
#[derive(Debug, PartialEq, Eq)]
pub struct ManagementStoreError(pub String);

/// Why a management request was refused.
#[derive(Debug, PartialEq, Eq)]
pub enum ManagementError {
    /// No job has the prefix.
    NotFound,
    /// More than one job has the prefix.
    Ambiguous(Vec<JobId>),
    /// The prefix is no prefix of an identifier.
    InvalidPrefix,
    /// The number of results is out of bounds.
    InvalidLimit,
    /// The job's state does not allow the request.
    StateConflict(&'static str),
    /// An interrupted job is only run again on confirmation.
    ConfirmationRequired,
    /// The store failed.
    Store(ManagementStoreError),
}

/// `limit` is an accepted number of results.
pub open spec fn valid_limit(limit: usize) -> bool {
    1 <= limit <= MAX_MANAGEMENT_RESULTS
}

/// `byte` may occur in an identifier, in either case.
pub open spec fn identifier_byte(byte: u8) -> bool {
    byte < 128 && symbol_digit(byte as char) is Some
}

/// `prefix` may start an identifier.
pub open spec fn valid_prefix(prefix: Seq<char>) -> bool {
    &&& 1 <= prefix.len() <= MAX_PREFIX_CHARS
    &&& forall|i: int|
        0 <= i < prefix.len() ==> (#[trigger] prefix[i] as u32) < 128 && identifier_byte(
            prefix[i] as u8,
        )
}

/// Where jobs are kept.
pub trait ManagementStore {
    fn list_jobs(&self, state: Option<JobState>, after: Option<JobId>, limit: usize) -> Result<
        Vec<Job>,
        ManagementStoreError,
    >
        requires
            valid_limit(limit),
    ;

    fn find_jobs_by_prefix(&self, prefix: &str, limit: usize) -> Result<
        Vec<Job>,
        ManagementStoreError,
    >
        requires
            valid_prefix(prefix@),
            valid_limit(limit),
    ;

    /// The latest runs that are done, of a job or of all jobs.
    fn list_runs(&self, job_id: Option<JobId>, limit: usize) -> Result<
        Vec<Run>,
        ManagementStoreError,
    >
        requires
            valid_limit(limit),
    ;

    fn active_runs(&self) -> Result<Vec<Run>, ManagementStoreError>;

    fn latest_active_run(&self, job_id: JobId) -> Result<Option<Run>, ManagementStoreError>;

    fn hide_job(&mut self, job_id: JobId, expected_revision: Revision, keep_history: bool) -> Result<
        Job,
        ManagementStoreError,
    >;

    fn prepare_rerun(
        &mut self,
        job_id: JobId,
        expected_revision: Revision,
        now: UtcTimestamp,
    ) -> Result<Job, ManagementStoreError>;
}

// ---------------------------------------------------------------------------------------------
// Messages
// ---------------------------------------------------------------------------------------------
/// The identifiers of a list, one after another.
pub open spec fn id_list_text(ids: Seq<JobId>) -> Seq<char>
    decreases ids.len(),
{
    if ids.len() == 0 {
        Seq::empty()
    } else if ids.len() == 1 {
        "JobId("@ + uuid_text(ids[0]@) + ")"@
    } else {
        id_list_text(ids.drop_last()) + ", "@ + ("JobId("@ + uuid_text(ids.last()@) + ")"@)
    }
}

/// The message of a management error.
pub open spec fn management_message(error: ManagementError) -> Seq<char> {
    match error {
        ManagementError::NotFound => "job was not found"@,
        ManagementError::Ambiguous(ids) => "job prefix is ambiguous: ["@ + id_list_text(ids@)
            + "]"@,
        ManagementError::InvalidPrefix => "job prefix is not valid"@,
        ManagementError::InvalidLimit => "result limit must be between 1 and 1000"@,
        ManagementError::StateConflict(detail) => detail@,
        ManagementError::ConfirmationRequired => {
            "running an interrupted job again requires --yes"@
        },
        ManagementError::Store(inner) => "management storage failed: "@ + inner.0@,
    }
}

fn push_id_list(out: &mut String, ids: &Vec<JobId>)
    ensures
        final(out)@ == old(out)@ + id_list_text(ids@),
{
    let ghost before = out@;
    let mut index: usize = 0;
    assert(ids@.take(0) =~= Seq::<JobId>::empty());
    assert(before + id_list_text(ids@.take(0)) =~= before);
    while index < ids.len()
        invariant
            index <= ids.len(),
            out@ == before + id_list_text(ids@.take(index as int)),
        decreases ids.len() - index,
    {
        let ghost so_far = ids@.take(index as int);
        let ghost next = ids@.take(index + 1);
        proof {
            assert(next.drop_last() =~= so_far);
            assert(next.last() == ids@[index as int]);
        }
        if index > 0 {
            push_text(out, ", ");
        }
        push_text(out, "JobId(");
        push_uuid(out, ids[index].as_u128());
        push_text(out, ")");
        proof {
            if index == 0 {
                assert(next[0] == ids@[0]);
                assert(out@ =~= before + id_list_text(next));
            } else {
                assert(out@ =~= before + id_list_text(next));
            }
        }
        index += 1;
    }
    assert(ids@.take(ids@.len() as int) =~= ids@);
}

impl ManagementError {
    /// The error as a message.
    pub fn to_string(&self) -> (text: String)
        ensures
            text@ == management_message(*self),
    {
        match self {
            ManagementError::NotFound => "job was not found".to_owned(),
            ManagementError::Ambiguous(ids) => {
                let mut out: String = "job prefix is ambiguous: [".to_owned();
                push_id_list(&mut out, ids);
                push_text(&mut out, "]");
                out
            },
            ManagementError::InvalidPrefix => "job prefix is not valid".to_owned(),
            ManagementError::InvalidLimit => "result limit must be between 1 and 1000".to_owned(),
            ManagementError::StateConflict(detail) => copy_text(detail),
            ManagementError::ConfirmationRequired => {
                "running an interrupted job again requires --yes".to_owned()
            },
            ManagementError::Store(inner) => {
                let mut out: String = "management storage failed: ".to_owned();
                push_text(&mut out, inner.0.as_str());
                out
            },
        }
    }
}

// ---------------------------------------------------------------------------------------------
// Decisions
// ---------------------------------------------------------------------------------------------
/// Checks a number of results.
pub fn validate_limit(limit: usize) -> (r: Result<(), ManagementError>)
    ensures
        r is Ok == valid_limit(limit),
        r matches Err(error) ==> error is InvalidLimit,
{
    if 1 <= limit && limit <= MAX_MANAGEMENT_RESULTS {
        Ok(())
    } else {
        Err(ManagementError::InvalidLimit)
    }
}

/// Whether a byte may occur in an identifier.
pub fn is_identifier_byte(byte: u8) -> (r: bool)
    ensures
        r == identifier_byte(byte),
{
    let lower: u8 = if 65 <= byte && byte <= 90 {
        byte + 32
    } else {
        byte
    };
    (48 <= lower && lower <= 57) || (97 <= lower && lower <= 104) || lower == 106 || lower == 107
        || lower == 109 || lower == 110 || (112 <= lower && lower <= 116) || (118 <= lower && lower
        <= 122)
}

/// Whether a text may start an identifier.
pub fn is_valid_prefix(prefix: &str) -> (r: bool)
    ensures
        r == valid_prefix(prefix@),
{
    let chars: Vec<char> = chars_of(prefix);
    if chars.len() == 0 || chars.len() > MAX_PREFIX_CHARS {
        return false;
    }
    let mut index: usize = 0;
    while index < chars.len()
        invariant
            index <= chars.len(),
            chars@ == prefix@,
            forall|i: int|
                0 <= i < index ==> (#[trigger] prefix@[i] as u32) < 128 && identifier_byte(
                    prefix@[i] as u8,
                ),
        decreases chars.len() - index,
    {
        let c: char = chars[index];
        if c as u32 >= 128 || !is_identifier_byte(c as u8) {
            assert(prefix@[index as int] == c);
            return false;
        }
        index += 1;
    }
    true
}

/// The result is the only job, or what is wrong with there being none or several.
pub open spec fn single_match(found: Seq<Job>, r: Result<Job, ManagementError>) -> bool {
    if found.len() == 0 {
        r == Err::<Job, ManagementError>(ManagementError::NotFound)
    } else if found.len() == 1 {
        r == Ok::<Job, ManagementError>(found[0])
    } else {
        r matches Err(ManagementError::Ambiguous(ids)) && ids@ == found.map_values(
            |job: Job| job@.id,
        )
    }
}

/// The only job of a list.
pub fn only_job(found: Vec<Job>) -> (r: Result<Job, ManagementError>)
    ensures
        single_match(found@, r),
{
    let mut found: Vec<Job> = found;
    if found.len() == 0 {
        return Err(ManagementError::NotFound);
    }
    if found.len() == 1 {
        return match found.pop() {
            Some(job) => Ok(job),
            None => Err(ManagementError::NotFound),
        };
    }
    let mut ids: Vec<JobId> = Vec::new();
    let ghost all = found@.map_values(|job: Job| job@.id);
    let mut index: usize = 0;
    while index < found.len()
        invariant
            index <= found.len(),
            all == found@.map_values(|job: Job| job@.id),
            ids@ == all.take(index as int),
        decreases found.len() - index,
    {
        proof {
            assert(all.take(index + 1) =~= all.take(index as int).push(all[index as int]));
        }
        ids.push(found[index].id());
        index += 1;
    }
    assert(all.take(all.len() as int) =~= all);
    Err(ManagementError::Ambiguous(ids))
}

/// Why a job may not be removed, if so.
pub open spec fn removal_fault(job: JobModel) -> Option<ManagementError> {
    if job.state.terminal() {
        None
    } else {
        Some(ManagementError::StateConflict("only terminal jobs can be removed"))
    }
}

/// Why a job may not be run again, if so.
pub open spec fn rerun_fault(job: JobModel, confirmed: bool) -> Option<ManagementError> {
    if !job.state.terminal() {
        Some(ManagementError::StateConflict("only terminal jobs can be run again"))
    } else if job.state == JobState::Interrupted && !confirmed {
        Some(ManagementError::ConfirmationRequired)
    } else {
        None
    }
}

/// Checks that a job may be removed: it must be done.
pub fn check_removal(job: &Job) -> (r: Result<(), ManagementError>)
    ensures
        r == match removal_fault(job@) {
            None => Ok::<(), ManagementError>(()),
            Some(error) => Err(error),
        },
{
    if job.state().is_terminal() {
        Ok(())
    } else {
        Err(ManagementError::StateConflict("only terminal jobs can be removed"))
    }
}

/// Checks that a job may be run again: it must be done, and a job with an unknown outcome is
/// only run again on confirmation.
pub fn check_rerun(job: &Job, confirm_interrupted: bool) -> (r: Result<(), ManagementError>)
    ensures
        r == match rerun_fault(job@, confirm_interrupted) {
            None => Ok::<(), ManagementError>(()),
            Some(error) => Err(error),
        },
{
    if !job.state().is_terminal() {
        return Err(ManagementError::StateConflict("only terminal jobs can be run again"));
    }
    if job.state() == JobState::Interrupted && !confirm_interrupted {
        return Err(ManagementError::ConfirmationRequired);
    }
    Ok(())
}

// ---------------------------------------------------------------------------------------------
// Services
// ---------------------------------------------------------------------------------------------
/// The answer of the store, as a result of a service.
pub open spec fn from_store<T>(answer: Result<T, ManagementStoreError>) -> Result<
    T,
    ManagementError,
> {
    match answer {
        Ok(value) => Ok(value),
        Err(error) => Err(ManagementError::Store(error)),
    }
}

/// The result is what listing jobs gives.
pub open spec fn jobs_listed<Store: ManagementStore>(
    store: Store,
    state: Option<JobState>,
    after: Option<JobId>,
    limit: usize,
    r: Result<Vec<Job>, ManagementError>,
) -> bool {
    if !valid_limit(limit) {
        r == Err::<Vec<Job>, ManagementError>(ManagementError::InvalidLimit)
    } else {
        exists|found: Result<Vec<Job>, ManagementStoreError>|
            {
                &&& #[trigger] call_ensures(Store::list_jobs, (&store, state, after, limit), found)
                &&& r == from_store(found)
            }
    }
}

/// The run is done, and belongs to the job where one is asked for.
pub open spec fn is_completed_run(run: RunModel, job_id: Option<JobId>) -> bool {
    run.state.terminal() && (job_id matches Some(id) ==> run.job_id == id)
}

/// What is shown of the runs that the store found: those that are done, and no more than the limit.
pub open spec fn shown_runs(found: Seq<Run>, job_id: Option<JobId>, limit: usize) -> Seq<Run> {
    let done = found.filter(|run: Run| is_completed_run(run@, job_id));
    if done.len() <= limit {
        done
    } else {
        done.take(limit as int)
    }
}

/// At most so many runs are listed, all of them are done, and all belong to the job where one is
/// asked for.
pub open spec fn only_completed_runs(
    runs: Seq<Run>,
    job_id: Option<JobId>,
    limit: usize,
) -> bool {
    &&& runs.len() <= limit
    &&& forall|i: int| 0 <= i < runs.len() ==> is_completed_run((#[trigger] runs[i])@, job_id)
}

/// The result is what listing the runs that are done gives.
pub open spec fn runs_listed<Store: ManagementStore>(
    store: Store,
    job_id: Option<JobId>,
    limit: usize,
    r: Result<Vec<Run>, ManagementError>,
) -> bool {
    if !valid_limit(limit) {
        r == Err::<Vec<Run>, ManagementError>(ManagementError::InvalidLimit)
    } else {
        exists|found: Result<Vec<Run>, ManagementStoreError>|
            {
                &&& #[trigger] call_ensures(Store::list_runs, (&store, job_id, limit), found)
                &&& match found {
                    Ok(runs) => r matches Ok(shown) && shown@ == shown_runs(runs@, job_id, limit),
                    Err(error) => r == Err::<Vec<Run>, ManagementError>(
                        ManagementError::Store(error),
                    ),
                }
            }
    }
}

/// Lists jobs.
pub fn list_jobs<Store: ManagementStore>(
    store: &Store,
    state: Option<JobState>,
    after: Option<JobId>,
    limit: usize,
) -> (r: Result<Vec<Job>, ManagementError>)
    ensures
        jobs_listed(*store, state, after, limit, r),
{
    match validate_limit(limit) {
        Ok(_) => {},
        Err(error) => {
            return Err(error);
        },
    }
    match store.list_jobs(state, after, limit) {
        Ok(jobs) => Ok(jobs),
        Err(error) => Err(ManagementError::Store(error)),
    }
}

fn completed_only(found: Vec<Run>, job_id: Option<JobId>, limit: usize) -> (r: Vec<Run>)
    ensures
        r@ == shown_runs(found@, job_id, limit),
        only_completed_runs(r@, job_id, limit),
{
    let ghost all = found@;
    let ghost keeps = |run: Run| is_completed_run(run@, job_id);
    let mut shown: Vec<Run> = Vec::new();
    let ghost mut seen: int = 0;
    proof {
        assert(all.take(0) =~= Seq::<Run>::empty());
        reveal(Seq::filter);
        assert(all.take(0).filter(keeps) =~= Seq::<Run>::empty());
    }
    for run in iter: found
        invariant
            iter.seq() == all,
            seen == iter.index(),
            keeps == (|run: Run| is_completed_run(run@, job_id)),
            shown@.len() <= limit,
            all.take(seen).filter(keeps).len() >= shown@.len(),
            shown@ == all.take(seen).filter(keeps).take(shown@.len() as int),
            shown@.len() < limit ==> shown@ == all.take(seen).filter(keeps),
            only_completed_runs(shown@, job_id, limit),
    {
        let ghost before = shown@;
        let ghost done = all.take(seen).filter(keeps);
        proof {
            assert(run == all[seen]);
            assert(all.take(seen + 1) =~= all.take(seen).push(run));
            reveal(Seq::filter);
            assert(all.take(seen + 1).drop_last() =~= all.take(seen));
        }
        let belongs: bool = match job_id {
            Some(id) => run.job_id().same(id),
            None => true,
        };
        if run.state().is_terminal() && belongs {
            assert(all.take(seen + 1).filter(keeps) == done.push(run));
            if shown.len() < limit {
                shown.push(run);
                assert(shown@ =~= done.push(run));
            } else {
                assert(done.push(run).take(before.len() as int) =~= done.take(
                    before.len() as int,
                ));
            }
        }
        proof {
            seen = seen + 1;
            assert(shown@ =~= all.take(seen).filter(keeps).take(shown@.len() as int));
        }
    }
    assert(all.take(all.len() as int) =~= all);
    assert(shown@ =~= shown_runs(all, job_id, limit));
    shown
}

/// Lists the runs that are done, of a job or of all jobs.
pub fn list_runs<Store: ManagementStore>(
    store: &Store,
    job_id: Option<JobId>,
    limit: usize,
) -> (r: Result<Vec<Run>, ManagementError>)
    ensures
        runs_listed(*store, job_id, limit, r),
        r matches Ok(runs) ==> only_completed_runs(runs@, job_id, limit),
{
    match validate_limit(limit) {
        Ok(_) => {},
        Err(error) => {
            return Err(error);
        },
    }
    match store.list_runs(job_id, limit) {
        Ok(runs) => Ok(completed_only(runs, job_id, limit)),
        Err(error) => Err(ManagementError::Store(error)),
    }
}

/// The result is what looking a prefix up gives, where the store answers `found`.
pub open spec fn resolved_as(
    found: Result<Vec<Job>, ManagementStoreError>,
    r: Result<Job, ManagementError>,
) -> bool {
    match found {
        Ok(jobs) => single_match(jobs@, r),
        Err(error) => r == Err::<Job, ManagementError>(ManagementError::Store(error)),
    }
}

/// The result is what looking a prefix up gives: two jobs are enough to see that it names no single
/// one.
pub open spec fn job_named<Store: ManagementStore>(
    store: Store,
    prefix: Seq<char>,
    r: Result<Job, ManagementError>,
) -> bool {
    if !valid_prefix(prefix) {
        r == Err::<Job, ManagementError>(ManagementError::InvalidPrefix)
    } else {
        exists|text: &str, found: Result<Vec<Job>, ManagementStoreError>|
            {
                &&& #[trigger] call_ensures(
                    Store::find_jobs_by_prefix,
                    (&store, text, 2usize),
                    found,
                )
                &&& text@ == prefix
                &&& resolved_as(found, r)
            }
    }
}

/// The only job whose identifier starts with a prefix.
pub fn resolve_job<Store: ManagementStore>(store: &Store, prefix: &str) -> (r: Result<
    Job,
    ManagementError,
>)
    ensures
        job_named(*store, prefix@, r),
{
    if !is_valid_prefix(prefix) {
        return Err(ManagementError::InvalidPrefix);
    }
    match store.find_jobs_by_prefix(prefix, 2) {
        Ok(jobs) => only_job(jobs),
        Err(error) => Err(ManagementError::Store(error)),
    }
}

/// What came back while the job that a prefix names is changed: which job that is, and what the
/// store answered to the change.
pub struct ChangeAnswers {
    pub named: Result<Job, ManagementError>,
    pub changed: Result<Job, ManagementStoreError>,
}

/// What removing the job that a prefix names gives with the answers: the job must be done.
pub open spec fn removed_as(answers: ChangeAnswers) -> Result<Job, ManagementError> {
    match answers.named {
        Err(error) => Err(error),
        Ok(job) => match removal_fault(job@) {
            Some(error) => Err(error),
            None => from_store(answers.changed),
        },
    }
}

/// The store is asked to remove the job.
pub open spec fn removes(answers: ChangeAnswers) -> bool {
    answers.named matches Ok(job) && removal_fault(job@) is None
}

/// What running the job again that a prefix names gives with the answers: the job must be done, and
/// one with an unknown outcome is only run again on confirmation.
pub open spec fn rerun_as(confirmed: bool, answers: ChangeAnswers) -> Result<Job, ManagementError> {
    match answers.named {
        Err(error) => Err(error),
        Ok(job) => match rerun_fault(job@, confirmed) {
            Some(error) => Err(error),
            None => from_store(answers.changed),
        },
    }
}

/// The store is asked to make the job wait again.
pub open spec fn reruns(confirmed: bool, answers: ChangeAnswers) -> bool {
    answers.named matches Ok(job) && rerun_fault(job@, confirmed) is None
}

/// Removes a job that is done; a refused removal leaves the store as it was.
pub fn remove_job<Store: ManagementStore>(
    store: &mut Store,
    prefix: &str,
    keep_history: bool,
) -> (r: Result<Job, ManagementError>)
    ensures
        exists|answers: ChangeAnswers|
            {
                &&& r == #[trigger] removed_as(answers)
                &&& job_named(*old(store), prefix@, answers.named)
                &&& if removes(answers) {
                    exists|at: &mut Store|
                        {
                            &&& #[trigger] call_ensures(
                                Store::hide_job,
                                (
                                    at,
                                    answers.named->Ok_0@.id,
                                    answers.named->Ok_0@.revision,
                                    keep_history,
                                ),
                                answers.changed,
                            )
                            &&& *at == *old(store)
                            &&& *final(at) == *final(store)
                        }
                } else {
                    *final(store) == *old(store)
                }
            },
{
    let ghost mut answers: ChangeAnswers = arbitrary();
    let named: Result<Job, ManagementError> = resolve_job(store, prefix);
    proof {
        answers.named = named;
    }
    let job: Job = match named {
        Ok(job) => job,
        Err(error) => {
            let r: Result<Job, ManagementError> = Err(error);
            assert(r == removed_as(answers));
            return r;
        },
    };
    match check_removal(&job) {
        Ok(_) => {},
        Err(error) => {
            let r: Result<Job, ManagementError> = Err(error);
            assert(r == removed_as(answers));
            return r;
        },
    }
    let changed: Result<Job, ManagementStoreError> = store.hide_job(
        job.id(),
        job.revision(),
        keep_history,
    );
    proof {
        answers.changed = changed;
    }
    let r: Result<Job, ManagementError> = match changed {
        Ok(job) => Ok(job),
        Err(error) => Err(ManagementError::Store(error)),
    };
    assert(r == removed_as(answers));
    r
}

/// Runs a job again that is done; a refused request leaves the store as it was.
pub fn rerun_job<Store: ManagementStore>(
    store: &mut Store,
    prefix: &str,
    confirm_interrupted: bool,
    now: UtcTimestamp,
) -> (r: Result<Job, ManagementError>)
    ensures
        exists|answers: ChangeAnswers|
            {
                &&& r == #[trigger] rerun_as(confirm_interrupted, answers)
                &&& job_named(*old(store), prefix@, answers.named)
                &&& if reruns(confirm_interrupted, answers) {
                    exists|at: &mut Store|
                        {
                            &&& #[trigger] call_ensures(
                                Store::prepare_rerun,
                                (
                                    at,
                                    answers.named->Ok_0@.id,
                                    answers.named->Ok_0@.revision,
                                    now,
                                ),
                                answers.changed,
                            )
                            &&& *at == *old(store)
                            &&& *final(at) == *final(store)
                        }
                } else {
                    *final(store) == *old(store)
                }
            },
{
    let ghost mut answers: ChangeAnswers = arbitrary();
    let named: Result<Job, ManagementError> = resolve_job(store, prefix);
    proof {
        answers.named = named;
    }
    let job: Job = match named {
        Ok(job) => job,
        Err(error) => {
            let r: Result<Job, ManagementError> = Err(error);
            assert(r == rerun_as(confirm_interrupted, answers));
            return r;
        },
    };
    match check_rerun(&job, confirm_interrupted) {
        Ok(_) => {},
        Err(error) => {
            let r: Result<Job, ManagementError> = Err(error);
            assert(r == rerun_as(confirm_interrupted, answers));
            return r;
        },
    }
    let changed: Result<Job, ManagementStoreError> = store.prepare_rerun(
        job.id(),
        job.revision(),
        now,
    );
    proof {
        answers.changed = changed;
    }
    let r: Result<Job, ManagementError> = match changed {
        Ok(job) => Ok(job),
        Err(error) => Err(ManagementError::Store(error)),
    };
    assert(r == rerun_as(confirm_interrupted, answers));
    r
}

} // verus!
