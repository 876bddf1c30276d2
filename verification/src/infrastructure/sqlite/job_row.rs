//! Jobs as rows.
use vstd::prelude::*;

use super::database::{StoreError, StoreFault};
use super::names::{
    decode_job_state, decode_policy, decode_tier, encode_job_state, encode_policy, encode_tier,
    job_state_name, job_state_named, lemma_names_read_back, policy_name, policy_named, tier_name,
    tier_named,
};
use crate::domain::execution::{
    execution_storage_message, lemma_stored_round_trip, loaded_matches, optional_text,
    stored_matches, valid_execution, ExecutionModel, ExecutionSpec, ExecutionStorageError,
    StoredExecution,
};
use crate::domain::id::{id_of_text, id_text, lemma_id_views_injective, JobId};
use crate::domain::job::{
    consistent_job, description_text, name_text, Job, JobModel, JobSnapshot,
};
use crate::domain::primitives::{
    lemma_counter_views_injective, lemma_timestamp_view_injective, primitive_message, text_message,
    valid_text,
    Description, Name, PrimitiveError, Revision, UtcTimestamp, MAX_DESCRIPTION_CHARS,
    MAX_NAME_CHARS,
};
use crate::domain::schedule::{MissedPolicy, RuntimeTier, Schedule};
use crate::domain::state::JobState;
use crate::outside::{timestamp_of_text, timestamp_text};
use crate::text::copy_text;

verus! {

/// A row of the table of jobs. The schedule and the execution are stored as JSON text; a column
/// that cannot be read holds the reason.
pub struct JobRow {
    pub id: String,
    pub revision: i64,
    pub name: Option<String>,
    pub description: Option<String>,
    pub created_at_utc: String,
    pub updated_at_utc: String,
    pub state: String,
    pub runtime_tier: String,
    pub schedule: Result<Schedule, String>,
    pub missed_policy: String,
    pub execution: Result<StoredExecution, String>,
    pub next_due_utc: String,
    pub timezone_database_version: String,
    pub owner_uid: i64,
}

// ---------------------------------------------------------------------------------------------
// Columns
// ---------------------------------------------------------------------------------------------
/// The message for an identifier that cannot be read.
pub open spec fn identifier_message() -> Seq<char> {
    "identifier must be 26 canonical Crockford Base32 characters"@
}

/// The message for a timestamp that cannot be read.
pub open spec fn timestamp_message() -> Seq<char> {
    primitive_message(PrimitiveError::TimestampRange)
}

/// The column as the identifier of a job.
pub fn read_job_id(value: &str) -> (r: Result<JobId, StoreError>)
    ensures
        match id_of_text(value@) {
            Some(number) => r matches Ok(id) && id@ == number,
            None => r matches Err(error) && error@ == StoreFault::Corrupt(identifier_message()),
        },
{
    match JobId::from_str(value) {
        Ok(id) => Ok(id),
        Err(error) => Err(StoreError::Corrupt(error.to_string())),
    }
}

/// The column as a timestamp.
pub fn parse_timestamp(value: &str) -> (r: Result<UtcTimestamp, StoreError>)
    ensures
        match timestamp_of_text(value@) {
            Some(nanos) => r matches Ok(timestamp) && timestamp@ == nanos,
            None => r matches Err(error) && error@ == StoreFault::Corrupt(timestamp_message()),
        },
{
    match UtcTimestamp::from_str(value) {
        Ok(timestamp) => Ok(timestamp),
        Err(error) => Err(StoreError::Corrupt(error.to_string())),
    }
}

/// A counter as a column.
pub fn to_sql_u64(value: u64) -> (r: Result<i64, StoreError>)
    ensures
        if value <= i64::MAX {
            r matches Ok(stored) && stored == value
        } else {
            r matches Err(error) && error@ == StoreFault::Corrupt("counter exceeds SQLite i64"@)
        },
{
    if value <= 0x7fff_ffff_ffff_ffff {
        Ok(value as i64)
    } else {
        Err(StoreError::Corrupt("counter exceeds SQLite i64".to_owned()))
    }
}

/// A revision as a column.
pub fn revision_i64(revision: Revision) -> (r: Result<i64, StoreError>)
    ensures
        if revision@ <= i64::MAX {
            r matches Ok(stored) && 0 < stored == revision@
        } else {
            r matches Err(error) && error@ == StoreFault::Corrupt("revision exceeds SQLite i64"@)
        },
{
    let value: u64 = revision.get();
    if value <= 0x7fff_ffff_ffff_ffff {
        Ok(value as i64)
    } else {
        Err(StoreError::Corrupt("revision exceeds SQLite i64".to_owned()))
    }
}

fn read_revision(value: i64) -> (r: Result<Revision, StoreError>)
    ensures
        if value < 0 {
            r matches Err(error) && error@ == StoreFault::Corrupt("negative revision"@)
        } else if value == 0 {
            r matches Err(error) && error@ == StoreFault::Corrupt(
                primitive_message(PrimitiveError::Zero { field: "revision" }),
            )
        } else {
            r matches Ok(revision) && revision@ == value
        },
{
    if value < 0 {
        return Err(StoreError::Corrupt("negative revision".to_owned()));
    }
    match Revision::new(value as u64) {
        Ok(revision) => Ok(revision),
        Err(error) => Err(StoreError::Corrupt(error.to_string())),
    }
}

fn read_name(value: Option<String>) -> (r: Result<Option<Name>, StoreError>)
    ensures
        match value {
            Some(text) => if valid_text(text@, MAX_NAME_CHARS) {
                r matches Ok(name) && name_text(name) == Some(text@)
            } else {
                r matches Err(error) && error@ == StoreFault::Corrupt(
                    text_message(text@, "name", MAX_NAME_CHARS),
                )
            },
            None => r == Ok::<Option<Name>, StoreError>(None),
        },
{
    match value {
        Some(text) => match Name::new(text) {
            Ok(name) => Ok(Some(name)),
            Err(error) => Err(StoreError::Corrupt(error.to_string())),
        },
        None => Ok(None),
    }
}

fn read_description(value: Option<String>) -> (r: Result<Option<Description>, StoreError>)
    ensures
        match value {
            Some(text) => if valid_text(text@, MAX_DESCRIPTION_CHARS) {
                r matches Ok(description) && description_text(description) == Some(text@)
            } else {
                r matches Err(error) && error@ == StoreFault::Corrupt(
                    text_message(text@, "description", MAX_DESCRIPTION_CHARS),
                )
            },
            None => r == Ok::<Option<Description>, StoreError>(None),
        },
{
    match value {
        Some(text) => match Description::new(text) {
            Ok(description) => Ok(Some(description)),
            Err(error) => Err(StoreError::Corrupt(error.to_string())),
        },
        None => Ok(None),
    }
}

// ---------------------------------------------------------------------------------------------
// Reading
// ---------------------------------------------------------------------------------------------
/// What is wrong with the columns up to the missed policy, if anything; the first fault counts.
pub open spec fn job_head_fault(row: JobRow) -> Option<Seq<char>> {
    if id_of_text(row.id@) is None {
        Some(identifier_message())
    } else if row.revision < 0 {
        Some("negative revision"@)
    } else if row.revision == 0 {
        Some(primitive_message(PrimitiveError::Zero { field: "revision" }))
    } else if row.name is Some && !valid_text(row.name->0@, MAX_NAME_CHARS) {
        Some(text_message(row.name->0@, "name", MAX_NAME_CHARS))
    } else if row.description is Some && !valid_text(row.description->0@, MAX_DESCRIPTION_CHARS) {
        Some(text_message(row.description->0@, "description", MAX_DESCRIPTION_CHARS))
    } else if timestamp_of_text(row.created_at_utc@) is None {
        Some(timestamp_message())
    } else if timestamp_of_text(row.updated_at_utc@) is None {
        Some(timestamp_message())
    } else if job_state_named(row.state@) is None {
        Some("unknown job state"@)
    } else if tier_named(row.runtime_tier@) is None {
        Some("unknown runtime tier"@)
    } else if row.schedule is Err {
        Some(row.schedule->Err_0@)
    } else if policy_named(row.missed_policy@) is None {
        Some("unknown missed policy"@)
    } else {
        None
    }
}

/// What is wrong with the columns after the execution, if anything; the first fault counts.
pub open spec fn job_tail_fault(row: JobRow) -> Option<Seq<char>> {
    if timestamp_of_text(row.next_due_utc@) is None {
        Some(timestamp_message())
    } else if !(0 <= row.owner_uid <= u32::MAX) {
        Some("owner UID is outside u32"@)
    } else {
        None
    }
}

/// The job has the values of the columns, and the execution that was loaded.
pub open spec fn job_of_row(row: JobRow, execution: ExecutionModel, job: JobModel) -> bool {
    &&& id_of_text(row.id@) == Some(job.id@)
    &&& row.revision == job.revision@
    &&& optional_text(row.name) == job.name
    &&& optional_text(row.description) == job.description
    &&& timestamp_of_text(row.created_at_utc@) == Some(job.created_at_utc@)
    &&& timestamp_of_text(row.updated_at_utc@) == Some(job.updated_at_utc@)
    &&& job_state_named(row.state@) == Some(job.state)
    &&& tier_named(row.runtime_tier@) == Some(job.runtime_tier)
    &&& row.schedule matches Ok(schedule) && schedule@ == job.schedule
    &&& policy_named(row.missed_policy@) == Some(job.missed_policy)
    &&& job.execution == execution
    &&& timestamp_of_text(row.next_due_utc@) == Some(job.next_due_utc@)
    &&& row.timezone_database_version@ == job.timezone_database_version
    &&& row.owner_uid == job.owner_uid
}

/// The result is an error about a record with the given fault.
pub open spec fn corrupt<T>(r: Result<T, StoreError>, fault: Seq<char>) -> bool {
    r matches Err(error) && error@ == StoreFault::Corrupt(fault)
}

/// The result is what a row with a readable execution gives.
pub open spec fn decoded_with(
    row: JobRow,
    loaded: Result<ExecutionSpec, ExecutionStorageError>,
    r: Result<Job, StoreError>,
) -> bool {
    match loaded {
        Err(error) => corrupt(r, execution_storage_message(error)),
        Ok(execution) => match job_tail_fault(row) {
            Some(fault) => corrupt(r, fault),
            None => match r {
                Ok(job) => job_of_row(row, execution@, job@) && consistent_job(job@),
                Err(_) => corrupt(r, "stored job snapshot violates domain invariants"@) && exists|
                    job: JobModel,
                | #[trigger]
                    job_of_row(row, execution@, job) && !consistent_job(job),
            },
        },
    }
}

/// The result is what the row gives: each column must be readable, and the fields together must
/// make a job.
pub open spec fn decoded_job(row: JobRow, r: Result<Job, StoreError>) -> bool {
    match job_head_fault(row) {
        Some(fault) => corrupt(r, fault),
        None => match row.execution {
            Err(detail) => corrupt(r, "stored execution JSON is invalid: "@ + detail@),
            Ok(stored) => exists|loaded: Result<ExecutionSpec, ExecutionStorageError>|
                {
                    &&& #[trigger] loaded_matches(stored, loaded)
                    &&& decoded_with(row, loaded, r)
                },
        },
    }
}

fn malformed_execution(detail: String) -> (r: StoreError)
    ensures
        r@ == StoreFault::Corrupt("stored execution JSON is invalid: "@ + detail@),
{
    StoreError::Corrupt(ExecutionStorageError::Json(detail).to_string())
}

/// The job that a row holds.
pub fn decode_job_row(row: JobRow) -> (r: Result<Job, StoreError>)
    ensures
        decoded_job(row, r),
{
    let id: JobId = match read_job_id(row.id.as_str()) {
        Ok(id) => id,
        Err(error) => {
            return Err(error);
        },
    };
    let revision: Revision = match read_revision(row.revision) {
        Ok(revision) => revision,
        Err(error) => {
            return Err(error);
        },
    };
    let name: Option<Name> = match read_name(row.name) {
        Ok(name) => name,
        Err(error) => {
            return Err(error);
        },
    };
    let description: Option<Description> = match read_description(row.description) {
        Ok(description) => description,
        Err(error) => {
            return Err(error);
        },
    };
    let created_at_utc: UtcTimestamp = match parse_timestamp(row.created_at_utc.as_str()) {
        Ok(timestamp) => timestamp,
        Err(error) => {
            return Err(error);
        },
    };
    let updated_at_utc: UtcTimestamp = match parse_timestamp(row.updated_at_utc.as_str()) {
        Ok(timestamp) => timestamp,
        Err(error) => {
            return Err(error);
        },
    };
    let state: JobState = match decode_job_state(row.state.as_str()) {
        Some(state) => state,
        None => {
            return Err(StoreError::Corrupt("unknown job state".to_owned()));
        },
    };
    let runtime_tier: RuntimeTier = match decode_tier(row.runtime_tier.as_str()) {
        Some(tier) => tier,
        None => {
            return Err(StoreError::Corrupt("unknown runtime tier".to_owned()));
        },
    };
    let schedule: Schedule = match row.schedule {
        Ok(schedule) => schedule,
        Err(detail) => {
            return Err(StoreError::Corrupt(detail));
        },
    };
    let missed_policy: MissedPolicy = match decode_policy(row.missed_policy.as_str()) {
        Some(policy) => policy,
        None => {
            return Err(StoreError::Corrupt("unknown missed policy".to_owned()));
        },
    };
    let stored: StoredExecution = match row.execution {
        Ok(stored) => stored,
        Err(detail) => {
            return Err(malformed_execution(detail));
        },
    };
    let loaded: Result<ExecutionSpec, ExecutionStorageError> = ExecutionSpec::from_stored(stored);
    let ghost loaded_value = loaded;
    assert(loaded_matches(row.execution->Ok_0, loaded_value));
    let execution: ExecutionSpec = match loaded {
        Ok(execution) => execution,
        Err(error) => {
            let r: Result<Job, StoreError> = Err(StoreError::Corrupt(error.to_string()));
            assert(decoded_with(row, loaded_value, r));
            return r;
        },
    };
    let next_due_utc: UtcTimestamp = match parse_timestamp(row.next_due_utc.as_str()) {
        Ok(timestamp) => timestamp,
        Err(error) => {
            let r: Result<Job, StoreError> = Err(error);
            assert(decoded_with(row, loaded_value, r));
            return r;
        },
    };
    if row.owner_uid < 0 || row.owner_uid > 0xffff_ffff {
        let r: Result<Job, StoreError> = Err(
            StoreError::Corrupt("owner UID is outside u32".to_owned()),
        );
        assert(decoded_with(row, loaded_value, r));
        return r;
    }
    let snapshot: JobSnapshot = JobSnapshot {
        id,
        revision,
        name,
        description,
        created_at_utc,
        updated_at_utc,
        state,
        runtime_tier,
        schedule,
        missed_policy,
        execution,
        next_due_utc,
        timezone_database_version: row.timezone_database_version,
        owner_uid: row.owner_uid as u32,
    };
    let ghost model = snapshot@;
    assert(job_of_row(row, loaded_value->Ok_0@, model));
    let r: Result<Job, StoreError> = match Job::rehydrate(snapshot) {
        Ok(job) => Ok(job),
        Err(error) => Err(StoreError::Corrupt(error.to_string())),
    };
    assert(decoded_with(row, loaded_value, r));
    r
}

/// The jobs that rows hold; the first row that cannot be read stops.
pub open spec fn decoded_jobs(rows: Seq<JobRow>, r: Result<Vec<Job>, StoreError>) -> bool {
    match r {
        Ok(jobs) => jobs@.len() == rows.len() && forall|i: int|
            0 <= i < rows.len() ==> decoded_job(#[trigger] rows[i], Ok(jobs@[i])),
        Err(error) => exists|i: int|
            {
                &&& 0 <= i < rows.len()
                &&& decoded_job(#[trigger] rows[i], Err(error))
                &&& forall|j: int| 0 <= j < i ==> reads_as_job(#[trigger] rows[j])
            },
    }
}

/// The row can be read.
pub open spec fn reads_as_job(row: JobRow) -> bool {
    exists|job: Job| decoded_job(row, Ok(job))
}

/// The jobs that rows hold.
pub fn decode_job_rows(rows: Vec<JobRow>) -> (r: Result<Vec<Job>, StoreError>)
    ensures
        decoded_jobs(rows@, r),
{
    let ghost all = rows@;
    let mut jobs: Vec<Job> = Vec::new();
    for row in iter: rows
        invariant
            iter.seq() == all,
            jobs@.len() == iter.index(),
            forall|i: int| 0 <= i < jobs@.len() ==> decoded_job(#[trigger] all[i], Ok(jobs@[i])),
    {
        let ghost index = jobs@.len() as int;
        assert(row == all[index]);
        match decode_job_row(row) {
            Ok(job) => {
                jobs.push(job);
            },
            Err(error) => {
                assert(decoded_job(all[index], Err(error)));
                assert forall|j: int| 0 <= j < index implies reads_as_job(#[trigger] all[j]) by {
                    assert(decoded_job(all[j], Ok(jobs@[j])));
                }
                assert(decoded_jobs(all, Err(error)));
                return Err(error);
            },
        }
    }
    Ok(jobs)
}

// ---------------------------------------------------------------------------------------------
// Writing
// ---------------------------------------------------------------------------------------------
/// The row holds the job.
pub open spec fn stores_job(row: JobRow, job: JobModel) -> bool {
    &&& row.id@ == id_text(job.id@)
    &&& id_of_text(row.id@) == Some(job.id@)
    &&& 0 < row.revision == job.revision@
    &&& optional_text(row.name) == job.name
    &&& row.name matches Some(name) ==> valid_text(name@, MAX_NAME_CHARS)
    &&& optional_text(row.description) == job.description
    &&& row.description matches Some(text) ==> valid_text(text@, MAX_DESCRIPTION_CHARS)
    &&& stores_time(row.created_at_utc@, job.created_at_utc@)
    &&& stores_time(row.updated_at_utc@, job.updated_at_utc@)
    &&& row.state@ == job_state_name(job.state)
    &&& row.runtime_tier@ == tier_name(job.runtime_tier)
    &&& row.schedule matches Ok(schedule) && schedule@ == job.schedule
    &&& row.missed_policy@ == policy_name(job.missed_policy)
    &&& row.execution matches Ok(stored) && stored_matches(stored, job.execution)
    &&& valid_execution(job.execution)
    &&& stores_time(row.next_due_utc@, job.next_due_utc@)
    &&& row.timezone_database_version@ == job.timezone_database_version
    &&& row.owner_uid == job.owner_uid
}

/// The text holds the instant.
pub open spec fn stores_time(text: Seq<char>, nanos: int) -> bool {
    text == timestamp_text(nanos) && timestamp_of_text(text) == Some(nanos)
}

/// The row that holds a job; a revision beyond the range of a column is refused.
pub fn encode_job(job: &Job) -> (r: Result<JobRow, StoreError>)
    ensures
        if job@.revision@ <= i64::MAX {
            r matches Ok(row) && stores_job(row, job@)
        } else {
            r matches Err(error) && error@ == StoreFault::Corrupt("counter exceeds SQLite i64"@)
        },
{
    let snapshot: JobSnapshot = job.snapshot();
    let revision: i64 = match to_sql_u64(snapshot.revision.get()) {
        Ok(revision) => revision,
        Err(error) => {
            return Err(error);
        },
    };
    let name: Option<String> = match &snapshot.name {
        Some(name) => Some(copy_text(name.as_str())),
        None => None,
    };
    let description: Option<String> = match &snapshot.description {
        Some(description) => Some(copy_text(description.as_str())),
        None => None,
    };
    let stored: StoredExecution = snapshot.execution.to_stored();
    Ok(
        JobRow {
            id: snapshot.id.to_string(),
            revision,
            name,
            description,
            created_at_utc: snapshot.created_at_utc.to_string(),
            updated_at_utc: snapshot.updated_at_utc.to_string(),
            state: encode_job_state(snapshot.state).to_owned(),
            runtime_tier: encode_tier(snapshot.runtime_tier).to_owned(),
            schedule: Ok(snapshot.schedule),
            missed_policy: encode_policy(snapshot.missed_policy).to_owned(),
            execution: Ok(stored),
            next_due_utc: snapshot.next_due_utc.to_string(),
            timezone_database_version: snapshot.timezone_database_version,
            owner_uid: snapshot.owner_uid as i64,
        },
    )
}

/// A row that holds a job is read as that job.
pub proof fn lemma_stored_job_reads_back(row: JobRow, job: JobModel, r: Result<Job, StoreError>)
    requires
        stores_job(row, job),
        consistent_job(job),
        decoded_job(row, r),
    ensures
        r matches Ok(read) && read@ == job,
{
    lemma_names_read_back(
        job.state,
        crate::domain::state::RunState::Starting,
        job.runtime_tier,
        job.missed_policy,
    );
    assert(job_head_fault(row) is None);
    assert(job_tail_fault(row) is None);
    let stored = row.execution->Ok_0;
    let loaded = choose|loaded: Result<ExecutionSpec, ExecutionStorageError>|
        {
            &&& #[trigger] loaded_matches(stored, loaded)
            &&& decoded_with(row, loaded, r)
        };
    lemma_stored_round_trip(job.execution, stored, loaded);
    let execution = loaded->Ok_0@;
    assert forall|other: JobModel| #[trigger] job_of_row(row, execution, other) implies other
        == job by {
        lemma_row_determines_job(row, execution, other, job);
    }
}

proof fn lemma_row_determines_job(row: JobRow, execution: ExecutionModel, a: JobModel, b: JobModel)
    requires
        job_of_row(row, execution, a),
        job_of_row(row, execution, b),
    ensures
        a == b,
{
    let run = arbitrary();
    let sequence = arbitrary();
    lemma_id_views_injective(a.id, b.id, run, run);
    lemma_counter_views_injective(a.revision, b.revision, sequence, sequence);
    lemma_timestamp_view_injective(a.created_at_utc, b.created_at_utc);
    lemma_timestamp_view_injective(a.updated_at_utc, b.updated_at_utc);
    lemma_timestamp_view_injective(a.next_due_utc, b.next_due_utc);
}

} // verus!
