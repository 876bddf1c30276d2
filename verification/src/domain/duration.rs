//! Checked duration parsing and canonical formatting.
use std::str::FromStr;

use vstd::prelude::*;

use crate::text::{
    all_digits, char_is_ascii_space, char_is_digit, decimal, digits_value, is_ascii_space, is_digit,
    is_white_space, lemma_decimal_reads_back, lemma_digits_value_bounds, push_decimal, read_u64,
    trim, trim_end, trim_start, trimmed,
};

verus! {

/// The longest duration: 365 days.
pub const MAX_DURATION_SECONDS: u64 = 31_536_000;

/// Why a text is no duration.
#[derive(Clone, Copy, Debug, PartialEq, Eq, Structural)]
pub enum DurationError {
    /// There is nothing but white space.
    Empty,
    /// A component does not start with a digit.
    ExpectedNumber,
    /// A number is not followed by `h`, `m` or `s`.
    ExpectedUnit,
    /// A unit is repeated or out of order.
    UnitOrder,
    /// Hours are given as zero.
    ZeroHours,
    /// A number or the total exceeds 64 bits.
    Overflow,
    /// The total is zero or longer than 365 days.
    OutOfRange,
}

impl DurationError {
    /// The error as a message.
    pub fn to_string(&self) -> (text: String)
        ensures
            text@ == duration_error_message(*self),
    {
        match self {
            DurationError::Empty => "duration cannot be empty".to_owned(),
            DurationError::ExpectedNumber => "expected a decimal duration component".to_owned(),
            DurationError::ExpectedUnit => "expected one of h, m, or s".to_owned(),
            DurationError::UnitOrder => {
                "duration units must be unique and ordered h, m, s".to_owned()
            },
            DurationError::ZeroHours => "the hour component must be nonzero".to_owned(),
            DurationError::Overflow => "duration arithmetic overflowed".to_owned(),
            DurationError::OutOfRange => {
                "duration must be between one second and 365 days".to_owned()
            },
        }
    }
}

/// The message of a duration error.
pub open spec fn duration_error_message(error: DurationError) -> Seq<char> {
    match error {
        DurationError::Empty => "duration cannot be empty"@,
        DurationError::ExpectedNumber => "expected a decimal duration component"@,
        DurationError::ExpectedUnit => "expected one of h, m, or s"@,
        DurationError::UnitOrder => "duration units must be unique and ordered h, m, s"@,
        DurationError::ZeroHours => "the hour component must be nonzero"@,
        DurationError::Overflow => "duration arithmetic overflowed"@,
        DurationError::OutOfRange => "duration must be between one second and 365 days"@,
    }
}

// ---------------------------------------------------------------------------------------------
// The grammar
// ---------------------------------------------------------------------------------------------
/// The number of digits at the start of `text`.
pub open spec fn digit_run(text: Seq<char>) -> int
    decreases text.len(),
{
    if text.len() > 0 && is_digit(text[0]) {
        1 + digit_run(text.drop_first())
    } else {
        0
    }
}

/// `text` without the ASCII white space at its start.
pub open spec fn skip_spaces(text: Seq<char>) -> Seq<char>
    decreases text.len(),
{
    if text.len() > 0 && is_ascii_space(text[0]) {
        skip_spaces(text.drop_first())
    } else {
        text
    }
}

/// The rank of a unit, hours first, and the seconds that one of it lasts.
pub open spec fn unit_of(symbol: char) -> Option<(int, int)> {
    if symbol == 'h' {
        Some((3, 3600))
    } else if symbol == 'm' {
        Some((2, 60))
    } else if symbol == 's' {
        Some((1, 1))
    } else {
        None
    }
}

/// The total of a sequence of components, read from left to right. Each is a decimal number with
/// a unit of a rank below that of the one before it, with optional ASCII white space between
/// components.
pub open spec fn read_components(text: Seq<char>, previous_rank: int, total: int) -> Result<
    int,
    DurationError,
>
    decreases text.len(),
{
    let digits = digit_run(text);
    let number = digits_value(text.take(digits));
    if text.len() == 0 {
        Ok(total)
    } else if digits <= 0 {
        Err(DurationError::ExpectedNumber)
    } else if number > u64::MAX {
        Err(DurationError::Overflow)
    } else if digits >= text.len() {
        Err(DurationError::ExpectedUnit)
    } else {
        match unit_of(text[digits]) {
            None => Err(DurationError::ExpectedUnit),
            Some((rank, seconds)) => {
                let after = text.skip(digits + 1);
                let rest = skip_spaces(after);
                if text[digits] == 'h' && number == 0 {
                    Err(DurationError::ZeroHours)
                } else if rank >= previous_rank {
                    Err(DurationError::UnitOrder)
                } else if number * seconds > u64::MAX || total + number * seconds > u64::MAX {
                    Err(DurationError::Overflow)
                } else if after.len() > 0 && rest.len() == 0 {
                    Err(DurationError::ExpectedNumber)
                } else if rest.len() < text.len() {
                    read_components(rest, rank, total + number * seconds)
                } else {
                    Err(DurationError::ExpectedNumber)
                }
            },
        }
    }
}

/// The duration that `text` writes, in seconds.
pub open spec fn duration_of_text(text: Seq<char>) -> Result<u64, DurationError> {
    let body = trimmed(text);
    if body.len() == 0 {
        Err(DurationError::Empty)
    } else {
        match read_components(body, 4, 0) {
            Err(error) => Err(error),
            Ok(total) => if 1 <= total <= MAX_DURATION_SECONDS {
                Ok(total as u64)
            } else {
                Err(DurationError::OutOfRange)
            },
        }
    }
}

/// A component of the canonical form: nothing for zero.
pub open spec fn component_text(count: int, unit: char) -> Seq<char> {
    if count > 0 {
        decimal(count as nat).push(unit)
    } else {
        Seq::empty()
    }
}

/// The canonical form of a duration: whole hours, minutes and seconds, without zero components.
pub open spec fn duration_text(seconds: u64) -> Seq<char> {
    component_text(seconds as int / 3600, 'h') + component_text((seconds as int % 3600) / 60, 'm')
        + component_text(seconds as int % 60, 's')
}

proof fn lemma_digit_run_bounds(text: Seq<char>)
    ensures
        0 <= digit_run(text) <= text.len(),
        all_digits(text.take(digit_run(text))),
        digit_run(text) < text.len() ==> !is_digit(text[digit_run(text)]),
    decreases text.len(),
{
    if text.len() > 0 && is_digit(text[0]) {
        lemma_digit_run_bounds(text.drop_first());
        let digits = digit_run(text);
        let tail = text.drop_first();
        assert forall|i: int| 0 <= i < digits implies is_digit(
            #[trigger] text.take(digits)[i],
        ) by {
            if i > 0 {
                assert(tail.take(digits - 1)[i - 1] == text.take(digits)[i]);
            }
        }
    }
}

proof fn lemma_skip_spaces_shrinks(text: Seq<char>)
    ensures
        skip_spaces(text).len() <= text.len(),
    decreases text.len(),
{
    if text.len() > 0 && is_ascii_space(text[0]) {
        lemma_skip_spaces_shrinks(text.drop_first());
    }
}

/// Digits that end before another character are the run at the start of the text.
pub proof fn lemma_digit_run_is(text: Seq<char>, digits: int)
    requires
        0 <= digits <= text.len(),
        all_digits(text.take(digits)),
        digits < text.len() ==> !is_digit(text[digits]),
    ensures
        digit_run(text) == digits,
    decreases digits,
{
    if digits > 0 {
        assert(is_digit(text.take(digits)[0]));
        let tail = text.drop_first();
        assert forall|i: int| 0 <= i < digits - 1 implies is_digit(
            #[trigger] tail.take(digits - 1)[i],
        ) by {
            assert(tail.take(digits - 1)[i] == text.take(digits)[i + 1]);
        }
        lemma_digit_run_is(tail, digits - 1);
    }
}

/// Reading a canonical component adds it to the total and goes on with the rest.
proof fn lemma_reads_component(
    count: int,
    unit: char,
    rest: Seq<char>,
    previous_rank: int,
    total: int,
)
    requires
        0 < count <= u64::MAX,
        unit_of(unit) is Some,
        (unit_of(unit)->0).0 < previous_rank,
        total >= 0,
        total + count * (unit_of(unit)->0).1 <= u64::MAX,
        rest.len() > 0 ==> is_digit(rest[0]),
    ensures
        read_components(component_text(count, unit) + rest, previous_rank, total)
            == read_components(
            rest,
            (unit_of(unit)->0).0,
            total + count * (unit_of(unit)->0).1,
        ),
{
    let number = decimal(count as nat);
    let text = component_text(count, unit) + rest;
    let digits = number.len() as int;
    lemma_decimal_reads_back(count as nat);
    assert(text.take(digits) =~= number);
    assert(text[digits] == unit);
    lemma_digit_run_is(text, digits);
    assert(text.skip(digits + 1) =~= rest);
    assert(skip_spaces(rest) == rest);
    assert(count * (unit_of(unit)->0).1 >= 0) by (nonlinear_arith)
        requires
            count > 0,
            (unit_of(unit)->0).1 >= 0,
    ;
}

/// A text without white space at its ends is not trimmed.
pub proof fn lemma_trimmed_is_same(text: Seq<char>)
    requires
        text.len() > 0,
        !is_white_space(text[0]),
        !is_white_space(text.last()),
    ensures
        trimmed(text) == text,
{
    assert(trim_start(text) == text);
    assert(trim_end(text) == text);
}

proof fn lemma_component_edges(count: int, unit: char)
    requires
        unit == 'h' || unit == 'm' || unit == 's',
    ensures
        count > 0 ==> component_text(count, unit).len() > 0 && is_digit(
            component_text(count, unit)[0],
        ) && component_text(count, unit).last() == unit,
        count <= 0 ==> component_text(count, unit).len() == 0,
{
    if count > 0 {
        lemma_decimal_reads_back(count as nat);
        assert(is_digit(decimal(count as nat)[0]));
    }
}

/// Every duration reads back from its canonical form.
pub proof fn lemma_duration_round_trip(seconds: u64)
    requires
        1 <= seconds <= MAX_DURATION_SECONDS,
    ensures
        duration_of_text(duration_text(seconds)) == Ok::<u64, DurationError>(seconds),
{
    let hours = seconds as int / 3600;
    let minutes = (seconds as int % 3600) / 60;
    let rest = seconds as int % 60;
    let h = component_text(hours, 'h');
    let m = component_text(minutes, 'm');
    let s = component_text(rest, 's');
    let text = duration_text(seconds);
    lemma_component_edges(hours, 'h');
    lemma_component_edges(minutes, 'm');
    lemma_component_edges(rest, 's');
    assert(text =~= h + (m + s));
    assert(s + Seq::<char>::empty() =~= s);
    assert(hours * 3600 + minutes * 60 + rest == seconds);
    lemma_trimmed_is_same(text);
    let rank1 = if hours > 0 {
        3int
    } else {
        4int
    };
    if hours > 0 {
        lemma_reads_component(hours, 'h', m + s, 4, 0);
    } else {
        assert(h + (m + s) =~= m + s);
    }
    assert(read_components(text, 4, 0) == read_components(m + s, rank1, hours * 3600));
    let rank2 = if minutes > 0 {
        2int
    } else {
        rank1
    };
    if minutes > 0 {
        lemma_reads_component(minutes, 'm', s, rank1, hours * 3600);
    } else {
        assert(m + s =~= s);
    }
    assert(read_components(m + s, rank1, hours * 3600) == read_components(
        s,
        rank2,
        hours * 3600 + minutes * 60,
    ));
    if rest > 0 {
        assert(unit_of('s') == Some((1int, 1int)));
        assert(rest * (unit_of('s')->0).1 == rest) by (nonlinear_arith)
            requires
                (unit_of('s')->0).1 == 1,
        ;
        lemma_reads_component(
            rest,
            's',
            Seq::<char>::empty(),
            rank2,
            hours * 3600 + minutes * 60,
        );
    }
}

// ---------------------------------------------------------------------------------------------
// The type
// ---------------------------------------------------------------------------------------------
/// A duration between one second and 365 days, in whole seconds.
#[derive(Clone, Copy, Debug, PartialEq, Eq, PartialOrd, Ord, Hash, Structural)]
pub struct DurationSeconds(u64);

impl View for DurationSeconds {
    type V = u64;

    closed spec fn view(&self) -> u64 {
        self.0
    }
}

impl DurationSeconds {
    #[verifier::type_invariant]
    spec fn wf(self) -> bool {
        1 <= self.0 <= MAX_DURATION_SECONDS
    }

    /// The duration of so many seconds.
    pub fn new(seconds: u64) -> (r: Result<DurationSeconds, DurationError>)
        ensures
            match r {
                Ok(duration) => 1 <= seconds <= MAX_DURATION_SECONDS && duration@ == seconds,
                Err(error) => !(1 <= seconds <= MAX_DURATION_SECONDS) && error
                    == DurationError::OutOfRange,
            },
    {
        if seconds < 1 || seconds > MAX_DURATION_SECONDS {
            return Err(DurationError::OutOfRange);
        }
        Ok(DurationSeconds(seconds))
    }

    /// The number of seconds.
    pub fn get(self) -> (r: u64)
        ensures
            r == self@,
            1 <= r <= MAX_DURATION_SECONDS,
    {
        proof {
            use_type_invariant(&self);
        }
        self.0
    }

    /// The duration that a text writes.
    pub fn from_str(input: &str) -> (r: Result<DurationSeconds, DurationError>)
        ensures
            match r {
                Ok(duration) => duration_of_text(input@) == Ok::<u64, DurationError>(duration@),
                Err(error) => duration_of_text(input@) == Err::<u64, DurationError>(error),
            },
    {
        let chars: Vec<char> = trim(input);
        if chars.len() == 0 {
            return Err(DurationError::Empty);
        }
        let ghost body = chars@;
        let mut index: usize = 0;
        let mut previous_rank: u64 = 4;
        let mut total: u64 = 0;
        assert(body.skip(0) =~= body);
        while index < chars.len()
            invariant
                index <= chars.len(),
                chars@ == body,
                body == trimmed(input@),
                body.len() > 0,
                read_components(body, 4, 0) == read_components(
                    body.skip(index as int),
                    previous_rank as int,
                    total as int,
                ),
            decreases chars.len() - index,
        {
            let ghost text = body.skip(index as int);
            let ghost digits = digit_run(text);
            let number_start: usize = index;
            proof {
                lemma_digit_run_bounds(text);
            }
            while index < chars.len() && char_is_digit(chars[index])
                invariant
                    number_start <= index <= chars.len(),
                    index - number_start <= digits,
                    chars@ == body,
                    text == body.skip(number_start as int),
                    digits == digit_run(text),
                    0 <= digits <= text.len(),
                    all_digits(text.take(digits)),
                    digits < text.len() ==> !is_digit(text[digits]),
                decreases chars.len() - index,
            {
                assert(text[index - number_start] == body[index as int]);
                index += 1;
            }
            proof {
                if index - number_start < digits {
                    assert(is_digit(text.take(digits)[index - number_start]));
                    assert(text[index - number_start] == body[index as int]);
                }
                assert(index - number_start == digits);
                assert(body.subrange(number_start as int, index as int) =~= text.take(digits));
                lemma_digits_value_bounds(text.take(digits));
            }
            if number_start == index {
                return Err(DurationError::ExpectedNumber);
            }
            let number: u64 = match read_u64(&chars, number_start, index) {
                Some(number) => number,
                None => {
                    return Err(DurationError::Overflow);
                },
            };
            if index >= chars.len() {
                return Err(DurationError::ExpectedUnit);
            }
            let unit: char = chars[index];
            assert(text[digits] == unit);
            index += 1;
            let rank: u64;
            let seconds: u64;
            if unit == 'h' {
                if number == 0 {
                    return Err(DurationError::ZeroHours);
                }
                rank = 3;
                seconds = 3600;
            } else if unit == 'm' {
                rank = 2;
                seconds = 60;
            } else if unit == 's' {
                rank = 1;
                seconds = 1;
            } else {
                return Err(DurationError::ExpectedUnit);
            }
            if rank >= previous_rank {
                return Err(DurationError::UnitOrder);
            }
            let component: u64 = match number.checked_mul(seconds) {
                Some(component) => component,
                None => {
                    return Err(DurationError::Overflow);
                },
            };
            total = match total.checked_add(component) {
                Some(sum) => sum,
                None => {
                    return Err(DurationError::Overflow);
                },
            };
            previous_rank = rank;
            let ghost after = text.skip(digits + 1);
            assert(after =~= body.skip(index as int));
            let after_start: usize = index;
            while index < chars.len() && char_is_ascii_space(chars[index])
                invariant
                    after_start <= index <= chars.len(),
                    chars@ == body,
                    skip_spaces(after) == skip_spaces(body.skip(index as int)),
                decreases chars.len() - index,
            {
                let ghost here = body.skip(index as int);
                assert(here.drop_first() =~= body.skip(index + 1));
                index += 1;
            }
            assert(skip_spaces(after) == body.skip(index as int));
            if after_start < index && index == chars.len() {
                return Err(DurationError::ExpectedNumber);
            }
            if index == chars.len() && after_start == index {
                assert(after.len() == 0);
            }
        }
        assert(body.skip(index as int).len() == 0);
        DurationSeconds::new(total)
    }

    /// The canonical form of the duration.
    pub fn to_string(&self) -> (text: String)
        ensures
            text@ == duration_text(self@),
            duration_of_text(text@) == Ok::<u64, DurationError>(self@),
    {
        proof {
            use_type_invariant(self);
            lemma_duration_round_trip(self.0);
        }
        let hours: u64 = self.0 / 3600;
        let minutes: u64 = (self.0 % 3600) / 60;
        let seconds: u64 = self.0 % 60;
        let mut out = String::new();
        if hours > 0 {
            push_decimal(&mut out, hours);
            out.push('h');
        }
        assert(out@ =~= component_text(hours as int, 'h'));
        let ghost so_far = out@;
        if minutes > 0 {
            push_decimal(&mut out, minutes);
            out.push('m');
        }
        assert(out@ =~= so_far + component_text(minutes as int, 'm'));
        let ghost so_far = out@;
        if seconds > 0 {
            push_decimal(&mut out, seconds);
            out.push('s');
        }
        assert(out@ =~= so_far + component_text(seconds as int, 's'));
        out
    }
}

impl FromStr for DurationSeconds {
    type Err = DurationError;

    fn from_str(input: &str) -> Result<DurationSeconds, DurationError> {
        DurationSeconds::from_str(input)
    }
}

} // verus!
