//! Strict calendar syntax parsing.
//!
//! Positions and lengths count the bytes of the UTF-8 encoding.
use vstd::prelude::*;
use vstd::slice::slice_subrange;
use vstd::utf8::encode_utf8;

use super::civil::{valid_date, valid_time, CivilDate, CivilDateTime, CivilTime};
use crate::text::{contains_char, text_of, trim, trimmed};

verus! {

/// What calendar input asks for.
#[derive(Clone, Copy, Debug, PartialEq, Eq, Structural)]
pub enum CalendarSyntax {
    /// A time of day.
    Time(CivilTime),
    /// A day.
    Date(CivilDate),
    /// A time of a day.
    DateTime(CivilDateTime),
}

/// Why calendar input was refused.
#[derive(Clone, Copy, Debug, PartialEq, Eq, Structural)]
pub enum CalendarSyntaxError {
    /// There is nothing but white space.
    Empty,
    /// A component is not a decimal number in range.
    InvalidNumber,
    /// The text has not the shape of a date, or there is no such day.
    InvalidDate,
    /// The text has not the shape of a time, or there is no such time.
    InvalidTime,
    /// The text has not the shape of a date with a time.
    InvalidDateTime,
}

/// The message of a calendar syntax error.
pub open spec fn calendar_syntax_message(error: CalendarSyntaxError) -> Seq<char> {
    match error {
        CalendarSyntaxError::Empty => "calendar input cannot be empty"@,
        CalendarSyntaxError::InvalidNumber => "invalid decimal component"@,
        CalendarSyntaxError::InvalidDate => "expected YYYY-MM-DD"@,
        CalendarSyntaxError::InvalidTime => "expected HH:MM or HH:MM:SS"@,
        CalendarSyntaxError::InvalidDateTime => {
            "expected YYYY-MM-DD HH:MM[:SS] or YYYY-MM-DDTHH:MM[:SS]"@
        },
    }
}

impl CalendarSyntaxError {
    /// The error as a message.
    pub fn to_string(&self) -> (text: String)
        ensures
            text@ == calendar_syntax_message(*self),
    {
        match self {
            CalendarSyntaxError::Empty => "calendar input cannot be empty".to_owned(),
            CalendarSyntaxError::InvalidNumber => "invalid decimal component".to_owned(),
            CalendarSyntaxError::InvalidDate => "expected YYYY-MM-DD".to_owned(),
            CalendarSyntaxError::InvalidTime => "expected HH:MM or HH:MM:SS".to_owned(),
            CalendarSyntaxError::InvalidDateTime => {
                "expected YYYY-MM-DD HH:MM[:SS] or YYYY-MM-DDTHH:MM[:SS]".to_owned()
            },
        }
    }
}

// ---------------------------------------------------------------------------------------------
// The syntax
// ---------------------------------------------------------------------------------------------
/// Every byte is an ASCII digit.
pub open spec fn digit_bytes(bytes: Seq<u8>) -> bool {
    forall|i: int| 0 <= i < bytes.len() ==> 48 <= #[trigger] bytes[i] <= 57
}

/// The number that digits write in decimal.
pub open spec fn bytes_value(bytes: Seq<u8>) -> int
    decreases bytes.len(),
{
    if bytes.len() == 0 {
        0
    } else {
        bytes_value(bytes.drop_last()) * 10 + (bytes.last() - 48)
    }
}

/// The bytes are digits of a number up to `maximum`.
pub open spec fn number_up_to(bytes: Seq<u8>, maximum: int) -> bool {
    bytes.len() > 0 && digit_bytes(bytes) && bytes_value(bytes) <= maximum
}

/// Year, month and day of a text `YYYY-MM-DD`.
pub open spec fn date_of_bytes(bytes: Seq<u8>) -> Result<(int, int, int), CalendarSyntaxError> {
    let year = bytes.subrange(0, 4);
    let month = bytes.subrange(5, 7);
    let day = bytes.subrange(8, 10);
    if bytes.len() != 10 || bytes[4] != 45 || bytes[7] != 45 {
        Err(CalendarSyntaxError::InvalidDate)
    } else if !digit_bytes(year) || !digit_bytes(month) || !digit_bytes(day) {
        Err(CalendarSyntaxError::InvalidNumber)
    } else if !valid_date(bytes_value(year), bytes_value(month), bytes_value(day)) {
        Err(CalendarSyntaxError::InvalidDate)
    } else {
        Ok((bytes_value(year), bytes_value(month), bytes_value(day)))
    }
}

/// The bytes have the shape `HH:MM` or `HH:MM:SS`, whatever stands for the digits.
pub open spec fn time_shape(bytes: Seq<u8>) -> bool {
    ||| bytes.len() == 5 && bytes[2] == 58
    ||| bytes.len() == 8 && bytes[2] == 58 && bytes[5] == 58
}

/// Hour, minute and second of a text `HH:MM` or `HH:MM:SS`.
pub open spec fn time_of_bytes(bytes: Seq<u8>) -> Result<(int, int, int), CalendarSyntaxError> {
    let hour = bytes.subrange(0, 2);
    let minute = bytes.subrange(3, 5);
    let second = if bytes.len() == 8 {
        bytes.subrange(6, 8)
    } else {
        seq![48u8, 48u8]
    };
    if !time_shape(bytes) {
        Err(CalendarSyntaxError::InvalidTime)
    } else if !digit_bytes(hour) || !digit_bytes(minute) || !digit_bytes(second) {
        Err(CalendarSyntaxError::InvalidNumber)
    } else if !valid_time(bytes_value(hour), bytes_value(minute), bytes_value(second)) {
        Err(CalendarSyntaxError::InvalidTime)
    } else {
        Ok((bytes_value(hour), bytes_value(minute), bytes_value(second)))
    }
}

/// Day and time of a text with a date, a `T` or a space, and a time.
pub open spec fn datetime_of_bytes(bytes: Seq<u8>) -> Result<
    ((int, int, int), (int, int, int)),
    CalendarSyntaxError,
> {
    if !(bytes.len() == 16 || bytes.len() == 19) || !(bytes[10] == 84 || bytes[10] == 32) {
        Err(CalendarSyntaxError::InvalidDateTime)
    } else {
        match date_of_bytes(bytes.subrange(0, 10)) {
            Err(error) => Err(error),
            Ok(date) => match time_of_bytes(bytes.subrange(11, bytes.len() as int)) {
                Err(error) => Err(error),
                Ok(time) => Ok((date, time)),
            },
        }
    }
}

/// The result is what the syntax gives for `text`: colons alone make a time, hyphens alone a
/// date, anything else must be both.
pub open spec fn calendar_matches(
    text: Seq<char>,
    r: Result<CalendarSyntax, CalendarSyntaxError>,
) -> bool {
    let body = trimmed(text);
    let bytes = encode_utf8(body);
    if body.len() == 0 {
        r == Err::<CalendarSyntax, CalendarSyntaxError>(CalendarSyntaxError::Empty)
    } else if body.contains(':') && !body.contains('-') {
        match time_of_bytes(bytes) {
            Ok(t) => r matches Ok(CalendarSyntax::Time(time)) && time.is(t.0, t.1, t.2),
            Err(error) => r == Err::<CalendarSyntax, CalendarSyntaxError>(error),
        }
    } else if body.contains('-') && !body.contains(':') {
        match date_of_bytes(bytes) {
            Ok(d) => r matches Ok(CalendarSyntax::Date(date)) && date.is(d.0, d.1, d.2),
            Err(error) => r == Err::<CalendarSyntax, CalendarSyntaxError>(error),
        }
    } else {
        match datetime_of_bytes(bytes) {
            Ok((d, t)) => r matches Ok(CalendarSyntax::DateTime(both)) && both.date.is(
                d.0,
                d.1,
                d.2,
            ) && both.time.is(t.0, t.1, t.2),
            Err(error) => r == Err::<CalendarSyntax, CalendarSyntaxError>(error),
        }
    }
}

// ---------------------------------------------------------------------------------------------
// Parsing
// ---------------------------------------------------------------------------------------------
/// Reads calendar input.
pub fn parse_calendar(input: &str) -> (r: Result<CalendarSyntax, CalendarSyntaxError>)
    ensures
        calendar_matches(input@, r),
{
    let chars: Vec<char> = trim(input);
    if chars.len() == 0 {
        return Err(CalendarSyntaxError::Empty);
    }
    let body: String = text_of(&chars);
    let text: &str = body.as_str();
    let colon: bool = contains_char(text, ':');
    let hyphen: bool = contains_char(text, '-');
    if colon && !hyphen {
        return match parse_time(text) {
            Ok(time) => Ok(CalendarSyntax::Time(time)),
            Err(error) => Err(error),
        };
    }
    if hyphen && !colon {
        return match parse_date(text) {
            Ok(date) => Ok(CalendarSyntax::Date(date)),
            Err(error) => Err(error),
        };
    }
    match parse_datetime(text) {
        Ok(both) => Ok(CalendarSyntax::DateTime(both)),
        Err(error) => Err(error),
    }
}

/// Reads a date `YYYY-MM-DD`.
pub fn parse_date(input: &str) -> (r: Result<CivilDate, CalendarSyntaxError>)
    ensures
        match date_of_bytes(encode_utf8(input@)) {
            Ok(d) => r matches Ok(date) && date.is(d.0, d.1, d.2),
            Err(error) => r == Err::<CivilDate, CalendarSyntaxError>(error),
        },
{
    read_date(input.as_bytes())
}

fn read_date(bytes: &[u8]) -> (r: Result<CivilDate, CalendarSyntaxError>)
    ensures
        match date_of_bytes(bytes@) {
            Ok(d) => r matches Ok(date) && date.is(d.0, d.1, d.2),
            Err(error) => r == Err::<CivilDate, CalendarSyntaxError>(error),
        },
{
    if bytes.len() != 10 || bytes[4] != 45 || bytes[7] != 45 {
        return Err(CalendarSyntaxError::InvalidDate);
    }
    proof {
        lemma_short_value(bytes@.subrange(0, 4));
        lemma_short_value(bytes@.subrange(5, 7));
        lemma_short_value(bytes@.subrange(8, 10));
    }
    let year: i16 = match parse_i16(slice_subrange(bytes, 0, 4)) {
        Ok(year) => year,
        Err(error) => {
            return Err(error);
        },
    };
    let month: i8 = match parse_i8(slice_subrange(bytes, 5, 7)) {
        Ok(month) => month,
        Err(error) => {
            return Err(error);
        },
    };
    let day: i8 = match parse_i8(slice_subrange(bytes, 8, 10)) {
        Ok(day) => day,
        Err(error) => {
            return Err(error);
        },
    };
    match CivilDate::new(year, month, day) {
        Some(date) => Ok(date),
        None => Err(CalendarSyntaxError::InvalidDate),
    }
}

/// Reads a time `HH:MM` or `HH:MM:SS`.
pub fn parse_time(input: &str) -> (r: Result<CivilTime, CalendarSyntaxError>)
    ensures
        match time_of_bytes(encode_utf8(input@)) {
            Ok(t) => r matches Ok(time) && time.is(t.0, t.1, t.2),
            Err(error) => r == Err::<CivilTime, CalendarSyntaxError>(error),
        },
{
    read_time(input.as_bytes())
}

fn read_time(bytes: &[u8]) -> (r: Result<CivilTime, CalendarSyntaxError>)
    ensures
        match time_of_bytes(bytes@) {
            Ok(t) => r matches Ok(time) && time.is(t.0, t.1, t.2),
            Err(error) => r == Err::<CivilTime, CalendarSyntaxError>(error),
        },
{
    let short: bool = bytes.len() == 5 && bytes[2] == 58;
    let long: bool = bytes.len() == 8 && bytes[2] == 58 && bytes[5] == 58;
    if !short && !long {
        return Err(CalendarSyntaxError::InvalidTime);
    }
    proof {
        lemma_short_value(bytes@.subrange(0, 2));
        lemma_short_value(bytes@.subrange(3, 5));
    }
    let hour: i8 = match parse_i8(slice_subrange(bytes, 0, 2)) {
        Ok(hour) => hour,
        Err(error) => {
            return Err(error);
        },
    };
    let minute: i8 = match parse_i8(slice_subrange(bytes, 3, 5)) {
        Ok(minute) => minute,
        Err(error) => {
            return Err(error);
        },
    };
    let second: i8 = if bytes.len() == 8 {
        proof {
            lemma_short_value(bytes@.subrange(6, 8));
        }
        match parse_i8(slice_subrange(bytes, 6, 8)) {
            Ok(second) => second,
            Err(error) => {
                return Err(error);
            },
        }
    } else {
        proof {
            reveal_with_fuel(bytes_value, 3);
            let zeros = seq![48u8, 48u8];
            assert(bytes_value(zeros) == 0 && digit_bytes(zeros));
        }
        0
    };
    match CivilTime::new(hour, minute, second) {
        Some(time) => Ok(time),
        None => Err(CalendarSyntaxError::InvalidTime),
    }
}

/// Reads a date and a time with a `T` or a space between them.
pub fn parse_datetime(input: &str) -> (r: Result<CivilDateTime, CalendarSyntaxError>)
    ensures
        match datetime_of_bytes(encode_utf8(input@)) {
            Ok((d, t)) => r matches Ok(both) && both.date.is(d.0, d.1, d.2) && both.time.is(
                t.0,
                t.1,
                t.2,
            ),
            Err(error) => r == Err::<CivilDateTime, CalendarSyntaxError>(error),
        },
{
    let bytes: &[u8] = input.as_bytes();
    let len: usize = bytes.len();
    if !(len == 16 || len == 19) || !(bytes[10] == 84 || bytes[10] == 32) {
        return Err(CalendarSyntaxError::InvalidDateTime);
    }
    let date: CivilDate = match read_date(slice_subrange(bytes, 0, 10)) {
        Ok(date) => date,
        Err(error) => {
            return Err(error);
        },
    };
    let time: CivilTime = match read_time(slice_subrange(bytes, 11, len)) {
        Ok(time) => time,
        Err(error) => {
            return Err(error);
        },
    };
    Ok(CivilDateTime { date, time })
}

/// Reads a decimal number up to 127.
pub fn parse_i8(input: &[u8]) -> (r: Result<i8, CalendarSyntaxError>)
    ensures
        r == if number_up_to(input@, 127) {
            Ok::<i8, CalendarSyntaxError>(bytes_value(input@) as i8)
        } else {
            Err(CalendarSyntaxError::InvalidNumber)
        },
{
    match read_number(input, 127) {
        Some(value) => Ok(value as i8),
        None => Err(CalendarSyntaxError::InvalidNumber),
    }
}

/// Reads a decimal number up to 32767.
pub fn parse_i16(input: &[u8]) -> (r: Result<i16, CalendarSyntaxError>)
    ensures
        r == if number_up_to(input@, 32767) {
            Ok::<i16, CalendarSyntaxError>(bytes_value(input@) as i16)
        } else {
            Err(CalendarSyntaxError::InvalidNumber)
        },
{
    match read_number(input, 32767) {
        Some(value) => Ok(value as i16),
        None => Err(CalendarSyntaxError::InvalidNumber),
    }
}

fn read_number(input: &[u8], maximum: u32) -> (r: Option<u32>)
    requires
        maximum <= 100_000,
    ensures
        match r {
            Some(value) => number_up_to(input@, maximum as int) && value == bytes_value(input@)
                && value <= maximum,
            None => !number_up_to(input@, maximum as int),
        },
{
    if input.len() == 0 {
        return None;
    }
    let mut value: u32 = 0;
    let mut index: usize = 0;
    while index < input.len()
        invariant
            index <= input.len(),
            input@.len() > 0,
            maximum <= 100_000,
            digit_bytes(input@.take(index as int)),
            value == bytes_value(input@.take(index as int)),
            value <= maximum,
        decreases input.len() - index,
    {
        let byte: u8 = input[index];
        let ghost before = input@.take(index as int);
        let ghost after = input@.take(index + 1);
        proof {
            assert(after.drop_last() =~= before);
            assert(after.last() == byte);
        }
        if byte < 48 || byte > 57 {
            assert(input@[index as int] == byte);
            return None;
        }
        value = value * 10 + (byte - 48) as u32;
        proof {
            assert forall|i: int| 0 <= i < after.len() implies 48 <= #[trigger] after[i] <= 57 by {
                if i < index {
                    assert(after[i] == before[i]);
                }
            }
        }
        if value > maximum {
            proof {
                if digit_bytes(input@) {
                    lemma_value_prefix(input@, index + 1);
                }
            }
            return None;
        }
        index += 1;
    }
    assert(input@.take(input@.len() as int) =~= input@);
    Some(value)
}

proof fn lemma_value_prefix(bytes: Seq<u8>, len: int)
    requires
        digit_bytes(bytes),
        0 <= len <= bytes.len(),
    ensures
        0 <= bytes_value(bytes.take(len)) <= bytes_value(bytes),
    decreases bytes.len(),
{
    if bytes.len() == 0 {
        assert(bytes.take(len) =~= bytes);
    } else if len == bytes.len() {
        assert(bytes.take(len) =~= bytes);
        lemma_value_prefix(bytes.drop_last(), len - 1);
    } else {
        lemma_value_prefix(bytes.drop_last(), len);
        assert(bytes.drop_last().take(len) =~= bytes.take(len));
    }
}

/// Up to four digits write a number below 10000, and two digits one below 100.
proof fn lemma_short_value(bytes: Seq<u8>)
    requires
        bytes.len() <= 4,
    ensures
        digit_bytes(bytes) ==> 0 <= bytes_value(bytes) <= 9999,
        digit_bytes(bytes) && bytes.len() <= 2 ==> bytes_value(bytes) <= 99,
{
    reveal_with_fuel(bytes_value, 5);
}

} // verus!
