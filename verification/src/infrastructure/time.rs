//! Readings of platform clocks.
use vstd::prelude::*;

use crate::application::clock::ClockError;
use crate::domain::recurrence::ElapsedInstant;
use crate::text::{push_decimal_i64, text_of, trim, trimmed};

verus! {

broadcast use vstd::seq::group_seq_axioms;

/// The reading of a clock that gives seconds and nanoseconds.
pub fn elapsed_from_parts(seconds: i64, nanoseconds: i64) -> (r: Result<ElapsedInstant, ClockError>)
    ensures
        match r {
            Ok(instant) => seconds >= 0 && 0 <= nanoseconds < 1_000_000_000 && instant@ == seconds
                * 1_000_000_000 + nanoseconds,
            Err(error) => !(seconds >= 0 && 0 <= nanoseconds < 1_000_000_000) && error
                == ClockError::OutOfRange,
        },
{
    if seconds < 0 || nanoseconds < 0 || nanoseconds >= 1_000_000_000 {
        return Err(ClockError::OutOfRange);
    }
    let whole: u128 = seconds as u128;
    let part: u128 = nanoseconds as u128;
    Ok(ElapsedInstant::from_nanos(whole * 1_000_000_000 + part))
}

/// Clock ticks in nanoseconds, where a tick is `numerator / denominator` nanoseconds.
pub fn ticks_to_nanos(ticks: u128, numerator: u32, denominator: u32) -> (r: Result<
    u128,
    ClockError,
>)
    ensures
        r == if denominator == 0 {
            Err::<u128, ClockError>(ClockError::Unavailable)
        } else if ticks * numerator > u128::MAX {
            Err(ClockError::OutOfRange)
        } else {
            Ok(((ticks * numerator) / denominator as int) as u128)
        },
{
    if denominator == 0 {
        return Err(ClockError::Unavailable);
    }
    match ticks.checked_mul(numerator as u128) {
        Some(scaled) => {
            proof {
                let divisor = denominator as int;
                assert(0 <= scaled as int / divisor <= scaled) by (nonlinear_arith)
                    requires
                        divisor > 0,
                        scaled >= 0,
                ;
            }
            Ok(scaled / denominator as u128)
        },
        None => Err(ClockError::OutOfRange),
    }
}

/// The reading of a tick counter, unless asking for its tick length failed.
pub fn elapsed_from_mach(status: i32, ticks: u64, numerator: u32, denominator: u32) -> (r: Result<
    ElapsedInstant,
    ClockError,
>)
    ensures
        if status != 0 || denominator == 0 {
            r == Err::<ElapsedInstant, ClockError>(ClockError::Unavailable)
        } else {
            r matches Ok(instant) && instant@ == (ticks * numerator) / denominator as int
        },
{
    if status != 0 {
        return Err(ClockError::Unavailable);
    }
    proof {
        assert(ticks * numerator <= u128::MAX) by (nonlinear_arith)
            requires
                ticks <= u64::MAX,
                numerator <= u32::MAX,
        ;
    }
    match ticks_to_nanos(ticks as u128, numerator, denominator) {
        Ok(nanos) => {
            proof {
                let product = ticks * numerator;
                let divisor = denominator as int;
                assert(0 <= product / divisor <= product && 0 <= product) by (nonlinear_arith)
                    requires
                        divisor > 0,
                        product == ticks * numerator,
                ;
            }
            Ok(ElapsedInstant::from_nanos(nanos))
        },
        Err(error) => Err(error),
    }
}

/// `c` is a hexadecimal digit or a hyphen.
pub open spec fn is_boot_symbol(c: char) -> bool {
    ||| '0' as u32 <= c as u32 <= '9' as u32
    ||| 'a' as u32 <= c as u32 <= 'f' as u32
    ||| 'A' as u32 <= c as u32 <= 'F' as u32
    ||| c == '-'
}

/// The text is a boot identifier: 36 hexadecimal digits and hyphens.
pub open spec fn valid_boot_id(text: Seq<char>) -> bool {
    &&& text.len() == 36
    &&& forall|i: int| 0 <= i < text.len() ==> is_boot_symbol(#[trigger] text[i])
}

/// The boot identity in the contents of the kernel's boot identifier file.
pub fn boot_identity_from_file(contents: &str) -> (r: Result<String, ClockError>)
    ensures
        match r {
            Ok(identity) => valid_boot_id(trimmed(contents@)) && identity@ == trimmed(contents@),
            Err(error) => !valid_boot_id(trimmed(contents@)) && error == ClockError::Unavailable,
        },
{
    let chars: Vec<char> = trim(contents);
    if chars.len() != 36 {
        return Err(ClockError::Unavailable);
    }
    let mut index: usize = 0;
    while index < chars.len()
        invariant
            index <= chars@.len(),
            chars@ == trimmed(contents@),
            forall|i: int| 0 <= i < index ==> is_boot_symbol(#[trigger] chars@[i]),
        decreases chars@.len() - index,
    {
        let c: char = chars[index];
        let code: u32 = c as u32;
        if !((48 <= code && code <= 57) || (97 <= code && code <= 102) || (65 <= code && code <= 70)
            || c == '-') {
            assert(!is_boot_symbol(chars@[index as int]));
            return Err(ClockError::Unavailable);
        }
        index += 1;
    }
    Ok(text_of(&chars))
}

/// The boot identity made of the time of the last boot, unless asking for it failed.
pub fn boot_identity_from_timeval(
    status: i32,
    size: usize,
    expected_size: usize,
    seconds: i64,
    microseconds: i64,
) -> (r: Result<String, ClockError>)
    ensures
        if status != 0 || size != expected_size || seconds <= 0 || microseconds < 0 {
            r matches Err(error) && error == ClockError::Unavailable
        } else {
            r matches Ok(identity) && identity@ == "macos:"@ + crate::text::decimal_int(
                seconds as int,
            ) + seq![':'] + crate::text::decimal_int(microseconds as int)
        },
{
    if status != 0 || size != expected_size || seconds <= 0 || microseconds < 0 {
        return Err(ClockError::Unavailable);
    }
    let mut out: String = "macos:".to_owned();
    push_decimal_i64(&mut out, seconds);
    out.push(':');
    push_decimal_i64(&mut out, microseconds);
    assert(out@ =~= "macos:"@ + crate::text::decimal_int(seconds as int) + seq![':']
        + crate::text::decimal_int(microseconds as int));
    Ok(out)
}

} // verus!
