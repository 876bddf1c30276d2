//! Which small values are accepted, and how they are written.
use crate::domain::duration::{lemma_duration_round_trip, DurationError, DurationSeconds};
use crate::domain::error::ErrorCode;
use crate::domain::id::{
    digit_byte, lemma_id_order, lemma_id_round_trip, IdentifierError, JobId, RunId,
};
use crate::domain::primitives::{
    Description, Name, PrimitiveError, Revision, Sequence, UtcTimestamp,
};
use crate::text::text_before;
use vstd::prelude::*;

verus! {

broadcast use vstd::seq::group_seq_axioms;

/// A name has at most 256 characters, and none of them is NUL.
pub proof fn lemma_names_are_short(value: String, r: Result<Name, PrimitiveError>)
    requires
        call_ensures(Name::new, (value,), r),
    ensures
        match r {
            Ok(name) => name@ == value@ && value@.len() <= 256 && !value@.contains('\0'),
            Err(PrimitiveError::ContainsNul { .. }) => value@.contains('\0'),
            Err(PrimitiveError::TooLong { maximum, .. }) => value@.len() > 256 && maximum == 256,
            Err(_) => false,
        },
{
}

/// A note has at most 4096 characters, and none of them is NUL.
pub proof fn lemma_notes_are_short(value: String, r: Result<Description, PrimitiveError>)
    requires
        call_ensures(Description::new, (value,), r),
    ensures
        match r {
            Ok(note) => note@ == value@ && value@.len() <= 4096 && !value@.contains('\0'),
            Err(PrimitiveError::ContainsNul { .. }) => value@.contains('\0'),
            Err(PrimitiveError::TooLong { maximum, .. }) => value@.len() > 4096 && maximum == 4096,
            Err(_) => false,
        },
{
}

/// Revisions and sequences start at one, and a revision grows by one.
pub proof fn lemma_counters_start_at_one(
    value: u64,
    revision: Result<Revision, PrimitiveError>,
    sequence: Result<Sequence, PrimitiveError>,
    from: Revision,
    next: Result<Revision, PrimitiveError>,
)
    requires
        call_ensures(Revision::new, (value,), revision),
        call_ensures(Sequence::new, (value,), sequence),
        call_ensures(Revision::next, (from,), next),
    ensures
        revision is Ok <==> value > 0,
        revision matches Ok(made) ==> made@ == value,
        sequence is Ok <==> value > 0,
        sequence matches Ok(made) ==> made@ == value,
        next matches Ok(later) ==> later@ == from@ + 1,
        next is Err ==> from@ == u64::MAX,
{
}

/// A duration lasts between one second and 365 days.
pub proof fn lemma_durations_are_bounded(seconds: u64, r: Result<DurationSeconds, DurationError>)
    requires
        call_ensures(DurationSeconds::new, (seconds,), r),
    ensures
        r is Ok <==> 1 <= seconds <= 365 * 86400,
        r matches Ok(duration) ==> duration@ == seconds,
        r matches Err(error) ==> error == DurationError::OutOfRange,
{
}

/// A duration that was written reads back as the same.
pub proof fn lemma_written_duration_reads_back(
    duration: &DurationSeconds,
    text: String,
    input: &str,
    r: Result<DurationSeconds, DurationError>,
)
    requires
        1 <= duration@ <= 365 * 86400,
        call_ensures(DurationSeconds::to_string, (duration,), text),
        input@ == text@,
        call_ensures(DurationSeconds::from_str, (input,), r),
    ensures
        r matches Ok(read) && read@ == duration@,
{
    lemma_duration_round_trip(duration@);
}

/// Identifiers that were written read back as the same, in either case of their letters, and their texts
/// are ordered as they are.
pub proof fn lemma_written_identifiers_read_back(
    job: &JobId,
    run: &RunId,
    job_text: String,
    run_text: String,
    input: &str,
    read_job: Result<JobId, IdentifierError>,
    read_run: Result<RunId, IdentifierError>,
)
    requires
        call_ensures(JobId::to_string, (job,), job_text),
        call_ensures(RunId::to_string, (run,), run_text),
        call_ensures(JobId::from_str, (input,), read_job),
        call_ensures(RunId::from_str, (input,), read_run),
    ensures
        job_text@.len() == 26 && run_text@.len() == 26,
        input@ == job_text@ ==> (read_job matches Ok(id) && id@ == job@),
        input@ == run_text@ ==> (read_run matches Ok(id) && id@ == run@),
        text_before(job_text@, run_text@) <==> job@ < run@,
        read_job is Ok ==> input@.len() == 26,
        read_job is Ok <==> read_run is Ok,
{
    lemma_id_round_trip(job@);
    lemma_id_round_trip(run@);
    lemma_id_order(job@, run@);
}

/// An instant is counted in nanoseconds; a second has 1,000,000,000 of them.
pub proof fn lemma_instants_count_nanoseconds(
    second: i64,
    at: Result<UtcTimestamp, PrimitiveError>,
    from: UtcTimestamp,
    seconds: i64,
    later: Option<UtcTimestamp>,
)
    requires
        call_ensures(UtcTimestamp::from_second, (second,), at),
        call_ensures(UtcTimestamp::plus_seconds, (from, seconds), later),
    ensures
        at matches Ok(instant) ==> instant@ == second * 1_000_000_000,
        at is Ok <==> -377_705_023_201 <= second <= 253_402_207_200,
        later matches Some(instant) ==> instant@ == from@ + seconds * 1_000_000_000,
        later is None ==> !(-377_705_023_201_000_000_000 <= from@ + seconds * 1_000_000_000
            <= 253_402_207_200_999_999_999),
{
}

/// An instant that was written reads back as the same.
pub proof fn lemma_written_instant_reads_back(
    instant: &UtcTimestamp,
    text: String,
    input: &str,
    r: Result<UtcTimestamp, PrimitiveError>,
)
    requires
        call_ensures(UtcTimestamp::to_string, (instant,), text),
        input@ == text@,
        call_ensures(UtcTimestamp::from_str, (input,), r),
    ensures
        r matches Ok(read) && read@ == instant@,
{
}

/// The first of two instants is the one with fewer nanoseconds.
pub proof fn lemma_instants_are_ordered(a: UtcTimestamp, b: UtcTimestamp, r: bool, s: bool)
    requires
        call_ensures(UtcTimestamp::is_before, (a, b), r),
        call_ensures(UtcTimestamp::is_before, (b, a), s),
    ensures
        r <==> a@ < b@,
        !(r && s),
{
}

/// An identifier is written with digits and small letters in their order, of which `i`, `l`, `o` and `u` are
/// left out.
pub proof fn lemma_identifier_digits(a: u128, b: u128, x: Option<u8>, y: Option<u8>)
    requires
        call_ensures(digit_byte, (a,), x),
        call_ensures(digit_byte, (b,), y),
    ensures
        x is Some <==> a < 32,
        x matches Some(byte) ==> {
            &&& 0x30 <= byte <= 0x39 || 0x61 <= byte <= 0x7a
            &&& byte != 0x69 && byte != 0x6c && byte != 0x6f && byte != 0x75
        },
        a < b < 32 ==> x->0 < y->0,
{
}

/// Errors are written under these names.
pub proof fn lemma_error_names(code: ErrorCode, r: &'static str)
    requires
        call_ensures(ErrorCode::wire_name, (code,), r),
    ensures
        code == ErrorCode::InvalidIdentifier ==> r@ == "INVALID_IDENTIFIER"@,
        code == ErrorCode::InvalidValue ==> r@ == "INVALID_VALUE"@,
        code == ErrorCode::InvalidTransition ==> r@ == "INVALID_TRANSITION"@,
        code == ErrorCode::RevisionConflict ==> r@ == "REVISION_CONFLICT"@,
        code == ErrorCode::TimeOutOfRange ==> r@ == "TIME_OUT_OF_RANGE"@,
        code == ErrorCode::JobNotFound ==> r@ == "JOB_NOT_FOUND"@,
        code == ErrorCode::AmbiguousJob ==> r@ == "AMBIGUOUS_JOB"@,
        code == ErrorCode::StorageFailure ==> r@ == "STORAGE_FAILURE"@,
        code == ErrorCode::ExecutionFailure ==> r@ == "EXECUTION_FAILURE"@,
        code == ErrorCode::PlatformUnavailable ==> r@ == "PLATFORM_UNAVAILABLE"@,
        code == ErrorCode::PermissionDenied ==> r@ == "PERMISSION_DENIED"@,
        code == ErrorCode::InternalFailure ==> r@ == "INTERNAL_FAILURE"@,
{
}

} // verus!
