//! The database file, its schema and its failures.
use vstd::prelude::*;

use crate::infrastructure::paths::{is_private_file, EntryFacts};
use crate::text::{decimal, push_decimal, push_text, text_eq};

verus! {

/// The version of the schema that this program reads and writes.
pub const CURRENT_SCHEMA_VERSION: u32 = 3;

/// The longest busy timeout, in milliseconds.
pub const MAX_BUSY_TIMEOUT_MS: u128 = 2_147_483_647;

/// How often an existing file is looked at before it is taken to have no schema.
pub const INIT_SCHEMA_ATTEMPTS: u32 = 10;

// ---------------------------------------------------------------------------------------------
// Failures
// ---------------------------------------------------------------------------------------------
/// What the database reports of a statement that failed, with its message.
#[derive(Debug, PartialEq, Eq)]
pub enum DatabaseFailure {
    /// Another connection holds the database.
    Busy(String),
    /// A constraint of the schema was violated.
    Constraint(String),
    /// Anything else.
    Other(String),
}

impl DatabaseFailure {
    /// The message of the database.
    pub open spec fn spec_detail(self) -> Seq<char> {
        match self {
            DatabaseFailure::Busy(detail) => detail@,
            DatabaseFailure::Constraint(detail) => detail@,
            DatabaseFailure::Other(detail) => detail@,
        }
    }
}

/// Why the store refused or failed.
#[derive(Debug, PartialEq, Eq)]
pub enum StoreError {
    Io(String),
    Sqlite(String),
    InsecureDatabaseFile,
    InvalidDatabasePath,
    NewerSchema { found: u32, supported: u32 },
    InvalidBusyTimeout,
    PragmaMismatch,
    AlreadyExists,
    NotFound,
    Conflict,
    InvalidPageSize,
    Busy,
    Corrupt(String),
    Domain(String),
    DuplicateClaim,
    InvalidClaim,
    Random(String),
}

/// A store error with its text as a character sequence.
pub enum StoreFault {
    Io(Seq<char>),
    Sqlite(Seq<char>),
    InsecureDatabaseFile,
    InvalidDatabasePath,
    NewerSchema { found: u32, supported: u32 },
    InvalidBusyTimeout,
    PragmaMismatch,
    AlreadyExists,
    NotFound,
    Conflict,
    InvalidPageSize,
    Busy,
    Corrupt(Seq<char>),
    Domain(Seq<char>),
    DuplicateClaim,
    InvalidClaim,
    Random(Seq<char>),
}

impl View for StoreError {
    type V = StoreFault;

    open spec fn view(&self) -> StoreFault {
        match *self {
            StoreError::Io(detail) => StoreFault::Io(detail@),
            StoreError::Sqlite(detail) => StoreFault::Sqlite(detail@),
            StoreError::InsecureDatabaseFile => StoreFault::InsecureDatabaseFile,
            StoreError::InvalidDatabasePath => StoreFault::InvalidDatabasePath,
            StoreError::NewerSchema { found, supported } => StoreFault::NewerSchema {
                found,
                supported,
            },
            StoreError::InvalidBusyTimeout => StoreFault::InvalidBusyTimeout,
            StoreError::PragmaMismatch => StoreFault::PragmaMismatch,
            StoreError::AlreadyExists => StoreFault::AlreadyExists,
            StoreError::NotFound => StoreFault::NotFound,
            StoreError::Conflict => StoreFault::Conflict,
            StoreError::InvalidPageSize => StoreFault::InvalidPageSize,
            StoreError::Busy => StoreFault::Busy,
            StoreError::Corrupt(detail) => StoreFault::Corrupt(detail@),
            StoreError::Domain(detail) => StoreFault::Domain(detail@),
            StoreError::DuplicateClaim => StoreFault::DuplicateClaim,
            StoreError::InvalidClaim => StoreFault::InvalidClaim,
            StoreError::Random(detail) => StoreFault::Random(detail@),
        }
    }
}

/// The message of a store error.
pub open spec fn store_message(error: StoreFault) -> Seq<char> {
    match error {
        StoreFault::Io(detail) => "database I/O failed: "@ + detail,
        StoreFault::Sqlite(detail) => "database operation failed: "@ + detail,
        StoreFault::InsecureDatabaseFile => {
            "database file must be regular, owner-only, and owned by this user"@
        },
        StoreFault::InvalidDatabasePath => "database path must have a parent and file name"@,
        StoreFault::NewerSchema { found, supported } => "database schema "@ + decimal(found as nat)
            + " is newer than supported schema "@ + decimal(supported as nat),
        StoreFault::InvalidBusyTimeout => "busy timeout is outside SQLite's supported range"@,
        StoreFault::PragmaMismatch => "SQLite connection pragmas did not stick"@,
        StoreFault::AlreadyExists => "job already exists"@,
        StoreFault::NotFound => "job was not found"@,
        StoreFault::Conflict => "job revision changed"@,
        StoreFault::InvalidPageSize => "page size must be between 1 and 100"@,
        StoreFault::Busy => "database stayed busy past its configured timeout"@,
        StoreFault::Corrupt(detail) => "stored record is corrupt: "@ + detail,
        StoreFault::Domain(detail) => "domain operation failed: "@ + detail,
        StoreFault::DuplicateClaim => "this job occurrence already has a run claim"@,
        StoreFault::InvalidClaim => "run claim token did not match"@,
        StoreFault::Random(detail) => "operating-system randomness failed: "@ + detail,
    }
}

fn with_detail(start: &str, detail: &str) -> (text: String)
    ensures
        text@ == start@ + detail@,
{
    let mut out: String = start.to_owned();
    push_text(&mut out, detail);
    out
}

impl StoreError {
    /// The error as a message.
    pub fn to_string(&self) -> (text: String)
        ensures
            text@ == store_message(self@),
    {
        match self {
            StoreError::Io(detail) => with_detail("database I/O failed: ", detail.as_str()),
            StoreError::Sqlite(detail) => {
                with_detail("database operation failed: ", detail.as_str())
            },
            StoreError::InsecureDatabaseFile => {
                "database file must be regular, owner-only, and owned by this user".to_owned()
            },
            StoreError::InvalidDatabasePath => {
                "database path must have a parent and file name".to_owned()
            },
            StoreError::NewerSchema { found, supported } => {
                let mut out: String = "database schema ".to_owned();
                push_decimal(&mut out, *found as u64);
                push_text(&mut out, " is newer than supported schema ");
                push_decimal(&mut out, *supported as u64);
                out
            },
            StoreError::InvalidBusyTimeout => {
                "busy timeout is outside SQLite's supported range".to_owned()
            },
            StoreError::PragmaMismatch => "SQLite connection pragmas did not stick".to_owned(),
            StoreError::AlreadyExists => "job already exists".to_owned(),
            StoreError::NotFound => "job was not found".to_owned(),
            StoreError::Conflict => "job revision changed".to_owned(),
            StoreError::InvalidPageSize => "page size must be between 1 and 100".to_owned(),
            StoreError::Busy => "database stayed busy past its configured timeout".to_owned(),
            StoreError::Corrupt(detail) => {
                with_detail("stored record is corrupt: ", detail.as_str())
            },
            StoreError::Domain(detail) => with_detail("domain operation failed: ", detail.as_str()),
            StoreError::DuplicateClaim => "this job occurrence already has a run claim".to_owned(),
            StoreError::InvalidClaim => "run claim token did not match".to_owned(),
            StoreError::Random(detail) => {
                with_detail("operating-system randomness failed: ", detail.as_str())
            },
        }
    }
}

/// The fault of a result, if it has one.
pub open spec fn fault_of<T>(r: Result<T, StoreError>) -> Option<StoreFault> {
    match r {
        Ok(_) => None,
        Err(error) => Some(error@),
    }
}

/// A failed write, as a fault of the store.
pub open spec fn write_fault(failure: DatabaseFailure) -> StoreFault {
    match failure {
        DatabaseFailure::Busy(_) => StoreFault::Busy,
        _ => StoreFault::Sqlite(failure.spec_detail()),
    }
}

/// The error of a failed write.
pub fn map_write_error(failure: DatabaseFailure) -> (r: StoreError)
    ensures
        r@ == write_fault(failure),
{
    match failure {
        DatabaseFailure::Busy(_) => StoreError::Busy,
        DatabaseFailure::Constraint(detail) => StoreError::Sqlite(detail),
        DatabaseFailure::Other(detail) => StoreError::Sqlite(detail),
    }
}

/// The error of a failed read.
pub fn map_read_error(failure: DatabaseFailure) -> (r: StoreError)
    ensures
        r@ == StoreFault::Sqlite(failure.spec_detail()),
{
    match failure {
        DatabaseFailure::Busy(detail) => StoreError::Sqlite(detail),
        DatabaseFailure::Constraint(detail) => StoreError::Sqlite(detail),
        DatabaseFailure::Other(detail) => StoreError::Sqlite(detail),
    }
}

/// The result of a write that has to change one row, where `otherwise` is the fault of one that
/// changes none or several.
pub open spec fn one_row(
    result: Result<usize, DatabaseFailure>,
    otherwise: StoreFault,
    r: Result<(), StoreError>,
) -> bool {
    match result {
        Ok(changed) => if changed == 1 {
            r is Ok
        } else {
            r matches Err(error) && error@ == otherwise
        },
        Err(failure) => r matches Err(error) && error@ == write_fault(failure),
    }
}

/// The outcome of a write that has to change one row; no row means that someone else changed it.
pub fn changed_one(result: Result<usize, DatabaseFailure>) -> (r: Result<(), StoreError>)
    ensures
        one_row(result, StoreFault::Conflict, r),
{
    match result {
        Ok(changed) => {
            if changed == 1 {
                Ok(())
            } else {
                Err(StoreError::Conflict)
            }
        },
        Err(failure) => Err(map_write_error(failure)),
    }
}

/// The outcome of a write that may change any number of rows.
pub fn written<T>(result: Result<T, DatabaseFailure>) -> (r: Result<T, StoreError>)
    ensures
        match result {
            Ok(value) => r == Ok::<T, StoreError>(value),
            Err(failure) => r matches Err(error) && error@ == write_fault(failure),
        },
{
    match result {
        Ok(value) => Ok(value),
        Err(failure) => Err(map_write_error(failure)),
    }
}

/// The outcome of a read.
pub fn answered<T>(result: Result<T, DatabaseFailure>) -> (r: Result<T, StoreError>)
    ensures
        match result {
            Ok(value) => r == Ok::<T, StoreError>(value),
            Err(failure) => r matches Err(error) && error@ == StoreFault::Sqlite(
                failure.spec_detail(),
            ),
        },
{
    match result {
        Ok(value) => Ok(value),
        Err(failure) => Err(map_read_error(failure)),
    }
}

// ---------------------------------------------------------------------------------------------
// The file
// ---------------------------------------------------------------------------------------------
/// Checks a database file that is already there: a regular file that only this user may open.
pub fn check_database_file(entry: EntryFacts, uid: u32) -> (r: Result<(), StoreError>)
    ensures
        if !entry.is_symlink && is_private_file(entry, uid) {
            r is Ok
        } else {
            r matches Err(error) && error@ == StoreFault::InsecureDatabaseFile
        },
{
    if entry.is_symlink || !entry.is_file || entry.owner != uid || entry.mode & 0o777 != 0o600 {
        return Err(StoreError::InsecureDatabaseFile);
    }
    Ok(())
}

/// What to do about a database whose schema version was read.
#[derive(Clone, Copy, Debug, PartialEq, Eq, Structural)]
pub enum SchemaWait {
    /// Go on to the migrations.
    Ready,
    /// Read the version again after a pause, so many times more.
    Retry(u32),
    /// Give up: the file has no schema.
    Missing,
}

/// What to do about a database whose schema version was read. A new file has no schema yet; an
/// existing file gets one only while another process creates it.
pub fn schema_wait(created: bool, version: i64, attempts_left: u32) -> (r: SchemaWait)
    ensures
        r == if created || version != 0 {
            SchemaWait::Ready
        } else if attempts_left <= 1 {
            SchemaWait::Missing
        } else {
            SchemaWait::Retry((attempts_left - 1) as u32)
        },
{
    if created || version != 0 {
        SchemaWait::Ready
    } else if attempts_left <= 1 {
        SchemaWait::Missing
    } else {
        SchemaWait::Retry(attempts_left - 1)
    }
}

/// The error for an existing file without a schema.
pub fn missing_schema() -> (r: StoreError)
    ensures
        r@ == StoreFault::Corrupt("existing database file carries no schema"@),
{
    StoreError::Corrupt("existing database file carries no schema".to_owned())
}

// ---------------------------------------------------------------------------------------------
// Migrations
// ---------------------------------------------------------------------------------------------
/// The positions of the versions that lead from the current version to the target.
pub open spec fn pending(versions: Seq<u32>, current: u32, target: u32) -> Seq<usize>
    decreases versions.len(),
{
    if versions.len() == 0 {
        Seq::empty()
    } else {
        let rest = pending(versions.drop_last(), current, target);
        if current < versions.last() <= target {
            rest.push((versions.len() - 1) as usize)
        } else {
            rest
        }
    }
}

/// Which migrations to run, by position, in order; a schema of the target version needs none and a
/// newer one is refused.
pub fn apply_migrations(current: u32, versions: &Vec<u32>, target_version: u32) -> (r: Result<
    Vec<usize>,
    StoreError,
>)
    ensures
        if current > target_version {
            r matches Err(error) && error@ == (StoreFault::NewerSchema {
                found: current,
                supported: target_version,
            })
        } else {
            r matches Ok(plan) && plan@ == pending(versions@, current, target_version)
        },
{
    if current > target_version {
        return Err(StoreError::NewerSchema { found: current, supported: target_version });
    }
    let mut plan: Vec<usize> = Vec::new();
    let mut index: usize = 0;
    assert(versions@.take(0) =~= Seq::<u32>::empty());
    while index < versions.len()
        invariant
            index <= versions@.len(),
            plan@ == pending(versions@.take(index as int), current, target_version),
        decreases versions@.len() - index,
    {
        proof {
            let next = versions@.take(index + 1);
            assert(next.drop_last() =~= versions@.take(index as int));
            assert(next.last() == versions@[index as int]);
        }
        let version: u32 = versions[index];
        if version > current && version <= target_version {
            plan.push(index);
        }
        index += 1;
    }
    assert(versions@.take(versions@.len() as int) =~= versions@);
    Ok(plan)
}

/// A schema of the target version needs no migration, and no migration beyond the target or up to
/// the current version is run.
pub proof fn lemma_pending_bounds(versions: Seq<u32>, current: u32, target: u32)
    requires
        versions.len() <= usize::MAX,
    ensures
        current >= target ==> pending(versions, current, target).len() == 0,
        forall|i: int|
            0 <= i < pending(versions, current, target).len() ==> {
                let position = #[trigger] pending(versions, current, target)[i];
                position < versions.len() && current < versions[position as int] <= target
            },
        forall|i: int, j: int|
            0 <= i < j < pending(versions, current, target).len() ==> pending(
                versions,
                current,
                target,
            )[i] < pending(versions, current, target)[j],
    decreases versions.len(),
{
    if versions.len() > 0 {
        let rest = pending(versions.drop_last(), current, target);
        let all = pending(versions, current, target);
        lemma_pending_bounds(versions.drop_last(), current, target);
        assert forall|i: int| 0 <= i < all.len() implies {
            let position = #[trigger] all[i];
            position < versions.len() && current < versions[position as int] <= target
        } by {
            if i < rest.len() {
                assert(all[i] == rest[i]);
                assert(rest[i] < versions.drop_last().len());
            }
        }
        assert forall|i: int, j: int| 0 <= i < j < all.len() implies all[i] < all[j] by {
            assert(all[i] == rest[i]);
            assert(rest[i] < versions.drop_last().len());
            if j < rest.len() {
                assert(all[j] == rest[j]);
            }
        }
    }
}

// ---------------------------------------------------------------------------------------------
// The connection
// ---------------------------------------------------------------------------------------------
/// The settings of a connection.
#[derive(Debug, PartialEq, Eq)]
pub struct ConnectionPragmas {
    pub foreign_keys: bool,
    pub journal_mode: String,
    pub synchronous: u8,
    pub busy_timeout_ms: u64,
}

/// Checks a busy timeout, in nanoseconds, and gives it in milliseconds.
pub fn check_busy_timeout(nanos: u128) -> (r: Result<u64, StoreError>)
    ensures
        if nanos == 0 || nanos / 1_000_000 > MAX_BUSY_TIMEOUT_MS {
            r matches Err(error) && error@ == StoreFault::InvalidBusyTimeout
        } else {
            r matches Ok(milliseconds) && milliseconds == nanos / 1_000_000
        },
{
    let milliseconds: u128 = nanos / 1_000_000;
    if nanos == 0 || milliseconds > MAX_BUSY_TIMEOUT_MS {
        return Err(StoreError::InvalidBusyTimeout);
    }
    Ok(milliseconds as u64)
}

/// The settings that a connection reports.
pub fn read_pragmas(
    foreign_keys: bool,
    journal_mode: String,
    synchronous: u8,
    busy_timeout_ms: i64,
) -> (r: Result<ConnectionPragmas, StoreError>)
    ensures
        if busy_timeout_ms < 0 {
            r matches Err(error) && error@ == StoreFault::PragmaMismatch
        } else {
            r matches Ok(pragmas) && pragmas.foreign_keys == foreign_keys && pragmas.journal_mode
                == journal_mode && pragmas.synchronous == synchronous && pragmas.busy_timeout_ms
                == busy_timeout_ms
        },
{
    if busy_timeout_ms < 0 {
        return Err(StoreError::PragmaMismatch);
    }
    Ok(
        ConnectionPragmas {
            foreign_keys,
            journal_mode,
            synchronous,
            busy_timeout_ms: busy_timeout_ms as u64,
        },
    )
}

/// Checks that the settings of a connection took effect: foreign keys are enforced, the journal is
/// written ahead, every commit is synchronous, and the timeout is the one asked for.
pub fn verify_pragmas(actual: &ConnectionPragmas, busy_timeout_ms: u64) -> (r: Result<
    (),
    StoreError,
>)
    ensures
        if actual.foreign_keys && actual.journal_mode@ == "wal"@ && actual.synchronous == 2
            && actual.busy_timeout_ms == busy_timeout_ms {
            r is Ok
        } else {
            r matches Err(error) && error@ == StoreFault::PragmaMismatch
        },
{
    if !actual.foreign_keys || !text_eq(actual.journal_mode.as_str(), "wal") || actual.synchronous
        != 2 || actual.busy_timeout_ms != busy_timeout_ms {
        return Err(StoreError::PragmaMismatch);
    }
    Ok(())
}

} // verus!
