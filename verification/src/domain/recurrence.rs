//! Relative and fixed-rate deadline arithmetic.
use vstd::prelude::*;

use super::duration::DurationSeconds;
use super::primitives::{in_time_range, UtcTimestamp, NANOS_PER_SECOND};

verus! {

/// The nanoseconds of a second.
const ELAPSED_NANOS_PER_SECOND: u128 = 1_000_000_000;

/// A deadline that cannot be represented.
#[derive(Clone, Copy, Debug, PartialEq, Eq, Structural)]
pub enum DeadlineError {
    /// The arithmetic leaves the supported range.
    Overflow,
}

impl DeadlineError {
    /// The error as a message.
    pub fn to_string(&self) -> (text: String)
        ensures
            text@ == "deadline arithmetic overflowed"@,
    {
        "deadline arithmetic overflowed".to_owned()
    }
}

/// A reading of a clock that only moves forward, in nanoseconds.
#[derive(Clone, Copy, Debug, PartialEq, Eq, PartialOrd, Ord, Structural)]
pub struct ElapsedInstant(u128);

impl View for ElapsedInstant {
    type V = u128;

    closed spec fn view(&self) -> u128 {
        self.0
    }
}

impl ElapsedInstant {
    /// The reading of so many nanoseconds.
    pub fn from_nanos(nanoseconds: u128) -> (r: ElapsedInstant)
        ensures
            r@ == nanoseconds,
    {
        ElapsedInstant(nanoseconds)
    }

    /// The reading in nanoseconds.
    pub fn as_nanos(self) -> (r: u128)
        ensures
            r == self@,
    {
        self.0
    }

    /// The reading so much later.
    pub fn checked_add_seconds(self, duration: DurationSeconds) -> (r: Result<
        ElapsedInstant,
        DeadlineError,
    >)
        ensures
            match r {
                Ok(later) => later@ == self@ + duration@ * NANOS_PER_SECOND,
                Err(_) => self@ + duration@ * NANOS_PER_SECOND > u128::MAX,
            },
    {
        let seconds: u128 = duration.get() as u128;
        let nanoseconds: u128 = match seconds.checked_mul(ELAPSED_NANOS_PER_SECOND) {
            Some(nanoseconds) => nanoseconds,
            None => {
                return Err(DeadlineError::Overflow);
            },
        };
        match self.0.checked_add(nanoseconds) {
            Some(sum) => Ok(ElapsedInstant(sum)),
            None => Err(DeadlineError::Overflow),
        }
    }
}

/// When a relative duration ends, on both clocks.
#[derive(Clone, Copy, Debug, PartialEq, Eq, Structural)]
pub struct RelativeDeadline {
    elapsed_due: ElapsedInstant,
    persisted_due_utc: UtcTimestamp,
}

impl RelativeDeadline {
    pub closed spec fn spec_elapsed_due(self) -> ElapsedInstant {
        self.elapsed_due
    }

    pub closed spec fn spec_persisted_due_utc(self) -> UtcTimestamp {
        self.persisted_due_utc
    }

    /// The end on the clock that only moves forward.
    pub fn elapsed_due(self) -> (r: ElapsedInstant)
        ensures
            r == self.spec_elapsed_due(),
    {
        self.elapsed_due
    }

    /// The end on the wall clock.
    pub fn persisted_due_utc(self) -> (r: UtcTimestamp)
        ensures
            r == self.spec_persisted_due_utc(),
    {
        self.persisted_due_utc
    }

    /// Whether the duration has ended; only the clock that moves forward decides.
    pub fn is_due(self, now: ElapsedInstant) -> (r: bool)
        ensures
            r == (now@ >= self.spec_elapsed_due()@),
    {
        now.0 >= self.elapsed_due.0
    }
}

/// The end of a duration that starts now.
pub fn relative_deadline(
    wall_now: UtcTimestamp,
    elapsed_now: ElapsedInstant,
    duration: DurationSeconds,
) -> (r: Result<RelativeDeadline, DeadlineError>)
    ensures
        ({
            let span = duration@ * NANOS_PER_SECOND;
            match r {
                Ok(deadline) => {
                    &&& in_time_range(wall_now@ + span)
                    &&& deadline.spec_persisted_due_utc()@ == wall_now@ + span
                    &&& deadline.spec_elapsed_due()@ == elapsed_now@ + span
                },
                Err(_) => !in_time_range(wall_now@ + span) || elapsed_now@ + span > u128::MAX,
            }
        }),
{
    let seconds: i64 = duration.get() as i64;
    let persisted_due_utc: UtcTimestamp = match wall_now.plus_seconds(seconds) {
        Some(due) => due,
        None => {
            return Err(DeadlineError::Overflow);
        },
    };
    proof {
        use_type_invariant(&persisted_due_utc);
    }
    let elapsed_due: ElapsedInstant = match elapsed_now.checked_add_seconds(duration) {
        Ok(due) => due,
        Err(error) => {
            return Err(error);
        },
    };
    Ok(RelativeDeadline { elapsed_due, persisted_due_utc })
}

/// The first occurrence after `now` of what happens at `anchor` and every `period` from then on.
pub open spec fn next_occurrence(anchor: int, now: int, period: int) -> int {
    if now < anchor {
        anchor
    } else {
        anchor + ((now - anchor) / period + 1) * period
    }
}

/// The time `count` periods after the anchor.
pub open spec fn occurrence(anchor: int, period: int, count: int) -> int {
    anchor + count * period
}

/// The next occurrence is after `now`, a whole number of periods after the anchor, and no earlier
/// such time is after `now`.
pub proof fn lemma_next_occurrence(anchor: int, now: int, period: int)
    requires
        period > 0,
    ensures
        next_occurrence(anchor, now, period) > now,
        exists|count: int|
            count >= 0 && next_occurrence(anchor, now, period) == #[trigger] occurrence(
                anchor,
                period,
                count,
            ),
        forall|count: int|
            count >= 0 && #[trigger] occurrence(anchor, period, count) > now ==> next_occurrence(
                anchor,
                now,
                period,
            ) <= occurrence(anchor, period, count),
{
    let next = next_occurrence(anchor, now, period);
    if now < anchor {
        assert(next == occurrence(anchor, period, 0)) by (nonlinear_arith)
            requires
                next == anchor,
        ;
        assert forall|count: int|
            count >= 0 && #[trigger] occurrence(anchor, period, count) > now implies next
            <= occurrence(anchor, period, count) by {
            assert(count * period >= 0) by (nonlinear_arith)
                requires
                    count >= 0,
                    period > 0,
            ;
        }
    } else {
        let elapsed = now - anchor;
        let periods = elapsed / period;
        assert(periods * period <= elapsed < (periods + 1) * period && periods >= 0)
            by (nonlinear_arith)
            requires
                elapsed >= 0,
                period > 0,
                periods == elapsed / period,
        ;
        assert(next == occurrence(anchor, period, periods + 1));
        assert forall|count: int|
            count >= 0 && #[trigger] occurrence(anchor, period, count) > now implies next
            <= occurrence(anchor, period, count) by {
            assert(count >= periods + 1 && (periods + 1) * period <= count * period)
                by (nonlinear_arith)
                requires
                    count * period > elapsed,
                    periods * period <= elapsed,
                    period > 0,
            ;
        }
    }
}

/// The first occurrence after `now`, on the clock that only moves forward.
pub fn next_fixed_rate(
    anchor: ElapsedInstant,
    now: ElapsedInstant,
    interval: DurationSeconds,
) -> (r: Result<ElapsedInstant, DeadlineError>)
    ensures
        ({
            let next = next_occurrence(
                anchor@ as int,
                now@ as int,
                interval@ * NANOS_PER_SECOND,
            );
            match r {
                Ok(due) => due@ == next,
                Err(_) => next > u128::MAX,
            }
        }),
{
    if now.0 < anchor.0 {
        return Ok(anchor);
    }
    let seconds: u128 = interval.get() as u128;
    let period: u128 = match seconds.checked_mul(ELAPSED_NANOS_PER_SECOND) {
        Some(period) => period,
        None => {
            return Err(DeadlineError::Overflow);
        },
    };
    let elapsed: u128 = now.0 - anchor.0;
    proof {
        let whole = elapsed as int / period as int;
        assert(0 <= whole <= elapsed && (whole + 1) * period >= whole + 1) by (nonlinear_arith)
            requires
                period > 0,
                elapsed >= 0,
                whole == elapsed as int / period as int,
        ;
    }
    let periods: u128 = match (elapsed / period).checked_add(1) {
        Some(periods) => periods,
        None => {
            return Err(DeadlineError::Overflow);
        },
    };
    let offset: u128 = match periods.checked_mul(period) {
        Some(offset) => offset,
        None => {
            return Err(DeadlineError::Overflow);
        },
    };
    match anchor.0.checked_add(offset) {
        Some(due) => Ok(ElapsedInstant(due)),
        None => Err(DeadlineError::Overflow),
    }
}

/// The first occurrence after `now`, on the wall clock.
pub fn next_fixed_rate_utc(
    anchor: UtcTimestamp,
    now: UtcTimestamp,
    interval: DurationSeconds,
) -> (r: Result<UtcTimestamp, DeadlineError>)
    ensures
        ({
            let next = next_occurrence(anchor@, now@, interval@ * NANOS_PER_SECOND);
            match r {
                Ok(due) => due@ == next && in_time_range(next),
                Err(_) => !in_time_range(next),
            }
        }),
{
    if now.is_before(anchor) {
        proof {
            use_type_invariant(&anchor);
        }
        return Ok(anchor);
    }
    let seconds: i128 = interval.get() as i128;
    let period: i128 = seconds * NANOS_PER_SECOND;
    let anchor_nanos: i128 = anchor.as_nanosecond();
    let now_nanos: i128 = now.as_nanosecond();
    let elapsed: i128 = now_nanos - anchor_nanos;
    let ghost whole = elapsed as int / period as int;
    proof {
        assert(0 <= whole <= elapsed && whole * period <= elapsed) by (nonlinear_arith)
            requires
                period > 0,
                elapsed >= 0,
                whole == elapsed as int / period as int,
        ;
        assert((whole + 1) * period == whole * period + period) by (nonlinear_arith);
    }
    let periods: i128 = elapsed / period + 1;
    let next: i128 = anchor_nanos + periods * period;
    match UtcTimestamp::from_nanosecond(next) {
        Ok(due) => Ok(due),
        Err(_) => Err(DeadlineError::Overflow),
    }
}

} // verus!
