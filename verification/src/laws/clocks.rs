//! How clocks are read and deadlines counted.
use crate::application::clock::ClockError;
use crate::domain::duration::DurationSeconds;
use crate::domain::primitives::UtcTimestamp;
use crate::domain::recurrence::{
    lemma_next_occurrence, next_fixed_rate, next_fixed_rate_utc, occurrence, relative_deadline,
    DeadlineError, ElapsedInstant, RelativeDeadline,
};
use crate::infrastructure::time::{
    boot_identity_from_file, boot_identity_from_timeval, elapsed_from_mach, elapsed_from_parts,
    is_boot_symbol,
};
use crate::text::{decimal, trimmed};
use vstd::prelude::*;

verus! {

/// A duration ends on both clocks after the same time.
pub proof fn lemma_deadline_is_the_same_on_both_clocks(
    wall: UtcTimestamp,
    elapsed: ElapsedInstant,
    duration: DurationSeconds,
    deadline: RelativeDeadline,
    later: ElapsedInstant,
    due: bool,
)
    requires
        call_ensures(
            relative_deadline,
            (wall, elapsed, duration),
            Ok::<RelativeDeadline, DeadlineError>(deadline),
        ),
        call_ensures(RelativeDeadline::is_due, (deadline, later), due),
    ensures
        deadline.spec_persisted_due_utc()@ - wall@ == duration@ * 1_000_000_000,
        deadline.spec_elapsed_due()@ - elapsed@ == duration@ * 1_000_000_000,
        due <==> later@ - elapsed@ >= duration@ * 1_000_000_000,
{
}

/// The next occurrence of what recurs from an anchor comes after now, a whole number of intervals after the
/// anchor, and none comes before it.
pub proof fn lemma_next_occurrence_is_the_first_after_now(
    anchor: UtcTimestamp,
    now: UtcTimestamp,
    interval: DurationSeconds,
    next: UtcTimestamp,
    earlier: int,
)
    requires
        interval@ > 0,
        call_ensures(
            next_fixed_rate_utc,
            (anchor, now, interval),
            Ok::<UtcTimestamp, DeadlineError>(next),
        ),
    ensures
        next@ > now@,
        exists|count: int|
            count >= 0 && next@ == #[trigger] occurrence(
                anchor@,
                interval@ * 1_000_000_000,
                count,
            ),
        earlier >= 0 && occurrence(anchor@, interval@ * 1_000_000_000, earlier) > now@ ==> next@
            <= occurrence(anchor@, interval@ * 1_000_000_000, earlier),
        next@ == anchor@ || next@ - now@ <= interval@ * 1_000_000_000,
{
    let period = interval@ * 1_000_000_000;
    lemma_next_occurrence(anchor@, now@, period);
    let count = choose|count: int|
        count >= 0 && next@ == #[trigger] occurrence(anchor@, period, count);
    if count == 0 {
        assert(0 * period == 0);
    } else {
        assert(occurrence(anchor@, period, count - 1) == next@ - period) by (nonlinear_arith)
            requires
                occurrence(anchor@, period, count - 1) == anchor@ + (count - 1) * period,
                next@ == anchor@ + count * period,
        ;
    }
}

/// The same holds on the clock that only moves forward.
pub proof fn lemma_next_reading_is_the_first_after_now(
    anchor: ElapsedInstant,
    now: ElapsedInstant,
    interval: DurationSeconds,
    next: ElapsedInstant,
)
    requires
        interval@ > 0,
        call_ensures(
            next_fixed_rate,
            (anchor, now, interval),
            Ok::<ElapsedInstant, DeadlineError>(next),
        ),
    ensures
        next@ > now@,
        exists|count: int|
            count >= 0 && next@ == #[trigger] occurrence(
                anchor@ as int,
                interval@ * 1_000_000_000,
                count,
            ),
        next@ == anchor@ || next@ - now@ <= interval@ * 1_000_000_000,
{
    let period = interval@ * 1_000_000_000;
    lemma_next_occurrence(anchor@ as int, now@ as int, period);
    let count = choose|count: int|
        count >= 0 && next@ == #[trigger] occurrence(anchor@ as int, period, count);
    if count == 0 {
        assert(0 * period == 0);
    } else {
        assert(occurrence(anchor@ as int, period, count - 1) == next@ - period)
            by (nonlinear_arith)
            requires
                occurrence(anchor@ as int, period, count - 1) == anchor@ + (count - 1) * period,
                next@ == anchor@ + count * period,
        ;
    }
}

/// A clock that gives seconds and nanoseconds is read in nanoseconds; parts out of range are refused.
pub proof fn lemma_clock_parts_are_added(
    seconds: i64,
    nanoseconds: i64,
    r: Result<ElapsedInstant, ClockError>,
)
    requires
        call_ensures(elapsed_from_parts, (seconds, nanoseconds), r),
    ensures
        r is Ok <==> seconds >= 0 && 0 <= nanoseconds < 1_000_000_000,
        r matches Ok(instant) ==> instant@ == seconds * 1_000_000_000 + nanoseconds,
{
}

/// Ticks are scaled to nanoseconds, rounded down.
pub proof fn lemma_ticks_are_scaled(
    status: i32,
    ticks: u64,
    numerator: u32,
    denominator: u32,
    r: Result<ElapsedInstant, ClockError>,
)
    requires
        call_ensures(elapsed_from_mach, (status, ticks, numerator, denominator), r),
    ensures
        r is Ok <==> status == 0 && denominator > 0,
        r matches Ok(instant) ==> {
            &&& instant@ * denominator <= ticks * numerator
            &&& ticks * numerator < (instant@ + 1) * denominator
        },
{
    if let Ok(instant) = r {
        let product = ticks * numerator;
        let divisor = denominator as int;
        let quotient = instant@ as int;
        assert(quotient * divisor <= product < (quotient + 1) * divisor) by (nonlinear_arith)
            requires
                divisor > 0,
                quotient == product / divisor,
        ;
    }
}

/// The identity of a boot has 36 characters, hexadecimal digits and hyphens; white space around it does not
/// count.
pub proof fn lemma_boot_identity_has_its_shape(contents: &str, r: Result<String, ClockError>)
    requires
        call_ensures(boot_identity_from_file, (contents,), r),
    ensures
        r matches Ok(identity) ==> {
            &&& identity@ == trimmed(contents@)
            &&& identity@.len() == 36
            &&& forall|i: int|
                0 <= i < identity@.len() ==> !((#[trigger] identity@[i]) == 'g' || identity@[i]
                    == '\0' || identity@[i] == ' ')
        },
        trimmed(contents@).len() != 36 ==> r is Err,
{
    if let Ok(identity) = r {
        assert forall|i: int| 0 <= i < identity@.len() implies !((#[trigger] identity@[i]) == 'g'
            || identity@[i] == '\0' || identity@[i] == ' ') by {
            assert(is_boot_symbol(identity@[i]));
        }
    }
}

/// A reading so many seconds later is that many times 1,000,000,000 nanoseconds later.
pub proof fn lemma_readings_are_added(
    from: ElapsedInstant,
    duration: DurationSeconds,
    r: Result<ElapsedInstant, DeadlineError>,
)
    requires
        call_ensures(ElapsedInstant::checked_add_seconds, (from, duration), r),
    ensures
        r matches Ok(later) ==> later@ == from@ + duration@ * 1_000_000_000,
        r is Err ==> from@ + duration@ * 1_000_000_000 > u128::MAX,
{
}

/// A deadline can be represented wherever both clocks can show it.
pub proof fn lemma_deadlines_are_found(
    wall: UtcTimestamp,
    elapsed: ElapsedInstant,
    duration: DurationSeconds,
    r: Result<RelativeDeadline, DeadlineError>,
)
    requires
        call_ensures(relative_deadline, (wall, elapsed, duration), r),
        -377_705_023_201_000_000_000 <= wall@,
    ensures
        r is Ok <==> wall@ + duration@ * 1_000_000_000 <= 253_402_207_200_999_999_999 && elapsed@
            + duration@ * 1_000_000_000 <= u128::MAX,
{
}

/// On macOS a boot is told by when it was.
pub proof fn lemma_boot_is_told_by_its_time(
    status: i32,
    size: usize,
    expected: usize,
    seconds: i64,
    micros: i64,
    r: Result<String, ClockError>,
)
    requires
        call_ensures(boot_identity_from_timeval, (status, size, expected, seconds, micros), r),
    ensures
        r is Ok <==> status == 0 && size == expected && seconds > 0 && micros >= 0,
        r matches Ok(identity) ==> identity@ == "macos:"@ + decimal(seconds as nat) + seq![':']
            + decimal(micros as nat),
{
}

} // verus!
