//! How durations are written.
use crate::domain::duration::{
    duration_of_text, lemma_digit_run_is, lemma_trimmed_is_same, read_components,
    skip_spaces, DurationError,
};
use crate::text::{all_digits, digits_value, is_digit, lemma_digits_value_bounds};
use vstd::prelude::*;

verus! {

broadcast use vstd::seq::group_seq_axioms;

/// The text writes a number that fits in 64 bits.
pub open spec fn number_text(text: Seq<char>) -> bool {
    text.len() > 0 && all_digits(text) && digits_value(text) <= u64::MAX
}

/// A number with its unit; nothing where there is no number.
pub open spec fn component(number: Option<Seq<char>>, unit: char) -> Seq<char> {
    match number {
        Some(digits) => digits.push(unit),
        None => Seq::empty(),
    }
}

/// How many there are of a unit.
pub open spec fn count_of(number: Option<Seq<char>>) -> int {
    match number {
        Some(digits) => digits_value(digits),
        None => 0,
    }
}

/// The seconds of a unit.
pub open spec fn seconds_of(unit: char) -> int {
    if unit == 'h' {
        3600
    } else if unit == 'm' {
        60
    } else {
        1
    }
}

/// The place of a unit, from the longest to the shortest.
pub open spec fn place_of(unit: char) -> int {
    if unit == 'h' {
        3
    } else if unit == 'm' {
        2
    } else {
        1
    }
}

proof fn lemma_reads_one(digits: Seq<char>, unit: char, rest: Seq<char>, previous: int, total: int)
    requires
        number_text(digits),
        unit == 'h' || unit == 'm' || unit == 's',
        unit == 'h' ==> digits_value(digits) > 0,
        place_of(unit) < previous,
        total >= 0,
        total + digits_value(digits) * seconds_of(unit) <= u64::MAX,
        rest.len() > 0 ==> is_digit(rest[0]),
    ensures
        read_components(digits.push(unit) + rest, previous, total) == read_components(
            rest,
            place_of(unit),
            total + digits_value(digits) * seconds_of(unit),
        ),
{
    let text = digits.push(unit) + rest;
    let len = digits.len() as int;
    lemma_digits_value_bounds(digits);
    assert(text.take(len) =~= digits);
    assert(text[len] == unit);
    lemma_digit_run_is(text, len);
    assert(text.skip(len + 1) =~= rest);
    assert(skip_spaces(rest) == rest);
    assert(digits_value(digits) * seconds_of(unit) >= 0) by (nonlinear_arith)
        requires
            digits_value(digits) >= 0,
            seconds_of(unit) >= 0,
    ;
}

proof fn lemma_component_starts_with_a_digit(number: Option<Seq<char>>, unit: char, rest: Seq<char>)
    requires
        number matches Some(digits) ==> number_text(digits),
        rest.len() > 0 ==> is_digit(rest[0]),
    ensures
        (component(number, unit) + rest).len() > 0 ==> is_digit((component(number, unit) + rest)[0]),
{
    if let Some(digits) = number {
        assert((component(number, unit) + rest)[0] == digits[0]);
    }
}

/// Hours, minutes and seconds add up: an hour has 3600 seconds and a minute 60. Each of them may be
/// left out, but not all; the whole is between one second and 365 days.
pub proof fn lemma_components_add_up(
    hours: Option<Seq<char>>,
    minutes: Option<Seq<char>>,
    seconds: Option<Seq<char>>,
)
    requires
        hours matches Some(digits) ==> number_text(digits) && digits_value(digits) > 0,
        minutes matches Some(digits) ==> number_text(digits),
        seconds matches Some(digits) ==> number_text(digits),
        hours is Some || minutes is Some || seconds is Some,
        count_of(hours) * 3600 + count_of(minutes) * 60 + count_of(seconds) <= u64::MAX,
    ensures
        ({
            let total = count_of(hours) * 3600 + count_of(minutes) * 60 + count_of(seconds);
            duration_of_text(
                component(hours, 'h') + (component(minutes, 'm') + component(seconds, 's')),
            ) == if 1 <= total <= 365 * 24 * 3600 {
                Ok::<u64, DurationError>(total as u64)
            } else {
                Err::<u64, DurationError>(DurationError::OutOfRange)
            }
        }),
{
    let none = Seq::<char>::empty();
    let s = component(seconds, 's');
    let ms = component(minutes, 'm') + s;
    let text = component(hours, 'h') + ms;
    if let Some(digits) = hours {
        lemma_digits_value_bounds(digits);
    }
    if let Some(digits) = minutes {
        lemma_digits_value_bounds(digits);
    }
    if let Some(digits) = seconds {
        lemma_digits_value_bounds(digits);
    }
    assert(s + none =~= s);
    lemma_component_starts_with_a_digit(seconds, 's', none);
    lemma_component_starts_with_a_digit(minutes, 'm', s);
    lemma_component_starts_with_a_digit(hours, 'h', ms);
    assert(text.last() == 'h' || text.last() == 'm' || text.last() == 's');
    lemma_trimmed_is_same(text);
    let place = if hours is Some {
        3int
    } else {
        4int
    };
    let so_far = count_of(hours) * 3600;
    if let Some(digits) = hours {
        lemma_reads_one(digits, 'h', ms, 4, 0);
    } else {
        assert(text =~= ms);
    }
    assert(read_components(text, 4, 0) == read_components(ms, place, so_far));
    let next_place = if minutes is Some {
        2int
    } else {
        place
    };
    if let Some(digits) = minutes {
        lemma_reads_one(digits, 'm', s, place, so_far);
    } else {
        assert(ms =~= s);
    }
    assert(read_components(ms, place, so_far) == read_components(
        s,
        next_place,
        so_far + count_of(minutes) * 60,
    ));
    if let Some(digits) = seconds {
        lemma_reads_one(digits, 's', none, next_place, so_far + count_of(minutes) * 60);
        assert(digits_value(digits) * 1 == digits_value(digits));
    }
}

/// Units come once each, from the longest to the shortest: a second component whose unit is not
/// shorter is refused.
pub proof fn lemma_units_are_in_order(
    first: Seq<char>,
    first_unit: char,
    second: Seq<char>,
    second_unit: char,
)
    requires
        number_text(first) && number_text(second),
        digits_value(first) > 0 && digits_value(second) > 0,
        first_unit == 'h' || first_unit == 'm' || first_unit == 's',
        second_unit == 'h' || second_unit == 'm' || second_unit == 's',
        seconds_of(second_unit) >= seconds_of(first_unit),
        digits_value(first) * seconds_of(first_unit) <= u64::MAX,
    ensures
        duration_of_text(first.push(first_unit) + second.push(second_unit)) == Err::<
            u64,
            DurationError,
        >(DurationError::UnitOrder),
{
    let rest = second.push(second_unit);
    let text = first.push(first_unit) + rest;
    assert(rest[0] == second[0]);
    assert(text[0] == first[0]);
    assert(text.last() == second_unit);
    lemma_trimmed_is_same(text);
    lemma_reads_one(first, first_unit, rest, 4, 0);
    let len = second.len() as int;
    assert(rest.take(len) =~= second);
    lemma_digit_run_is(rest, len);
}

/// Hours cannot be zero, and a number needs a unit.
pub proof fn lemma_incomplete_durations_are_refused(digits: Seq<char>)
    requires
        number_text(digits),
    ensures
        duration_of_text(digits) == Err::<u64, DurationError>(DurationError::ExpectedUnit),
        digits_value(digits) == 0 ==> duration_of_text(digits.push('h')) == Err::<
            u64,
            DurationError,
        >(DurationError::ZeroHours),
        duration_of_text(Seq::empty()) == Err::<u64, DurationError>(DurationError::Empty),
{
    let len = digits.len() as int;
    assert(digits.take(len) =~= digits);
    lemma_digit_run_is(digits, len);
    lemma_trimmed_is_same(digits);
    let hours = digits.push('h');
    assert(hours.take(len) =~= digits);
    lemma_digit_run_is(hours, len);
    lemma_trimmed_is_same(hours);
}

} // verus!
