//! What calendar input means: how it is written, and which instant it names in a time zone.
use crate::domain::calendar::{
    resolution_matches, CalendarError, CalendarResolution, LocalOffset, TimeZoneSelection,
};
use crate::domain::calendar_syntax::{
    bytes_value, calendar_matches, CalendarSyntax, CalendarSyntaxError,
};
use crate::domain::civil::{epoch_day, valid_date, CivilTime};
use crate::domain::primitives::UtcTimestamp;
use crate::domain::schedule::DstResolution;
use crate::outside::{tzdb_entry, tzif_loads, zone_day, zone_offset};
use crate::text::{trim_end, trim_start, trimmed, utf8_len};
use vstd::prelude::*;
use vstd::utf8::{encode_utf8, is_ascii_chars, is_ascii_chars_encode_utf8};

verus! {

broadcast use vstd::seq::group_seq_axioms;

// ---------------------------------------------------------------------------------------------
// How dates and times are written
// ---------------------------------------------------------------------------------------------
/// The number that two decimal digits write.
pub open spec fn two_digits(tens: char, ones: char) -> int {
    (tens as int - 48) * 10 + (ones as int - 48)
}

/// The character is a decimal digit.
pub open spec fn digit(c: char) -> bool {
    '0' <= c <= '9'
}

proof fn lemma_two_digit_value(bytes: Seq<u8>, at: int)
    requires
        0 <= at,
        at + 2 <= bytes.len(),
    ensures
        bytes_value(bytes.subrange(at, at + 2)) == (bytes[at] - 48) * 10 + (bytes[at + 1] - 48),
{
    let part = bytes.subrange(at, at + 2);
    reveal_with_fuel(bytes_value, 3);
    assert(part.drop_last().drop_last().len() == 0);
    assert(part.drop_last().last() == bytes[at]);
    assert(part.last() == bytes[at + 1]);
}

proof fn lemma_four_digit_value(bytes: Seq<u8>)
    requires
        4 <= bytes.len(),
    ensures
        bytes_value(bytes.subrange(0, 4)) == (bytes[0] - 48) * 1000 + (bytes[1] - 48) * 100 + (
        bytes[2] - 48) * 10 + (bytes[3] - 48),
{
    let part = bytes.subrange(0, 4);
    reveal_with_fuel(bytes_value, 5);
    assert(part.drop_last().drop_last().drop_last().drop_last().len() == 0);
    assert(part.drop_last().drop_last().drop_last().last() == bytes[0]);
    assert(part.drop_last().drop_last().last() == bytes[1]);
    assert(part.drop_last().last() == bytes[2]);
    assert(part.last() == bytes[3]);
}

proof fn lemma_untrimmed(text: Seq<char>)
    requires
        text.len() > 0,
        digit(text[0]),
        digit(text.last()),
    ensures
        trimmed(text) == text,
{
    assert(trim_start(text) == text);
    assert(trim_end(text) == text);
}

/// A time of day is written as hours and minutes, with two digits each.
pub proof fn lemma_written_time_is_read(
    h1: char,
    h2: char,
    m1: char,
    m2: char,
    r: Result<CalendarSyntax, CalendarSyntaxError>,
)
    requires
        digit(h1) && digit(h2) && digit(m1) && digit(m2),
        calendar_matches(seq![h1, h2, ':', m1, m2], r),
    ensures
        if two_digits(h1, h2) < 24 && two_digits(m1, m2) < 60 {
            r matches Ok(CalendarSyntax::Time(time)) && time.is(
                two_digits(h1, h2),
                two_digits(m1, m2),
                0,
            )
        } else {
            r == Err::<CalendarSyntax, CalendarSyntaxError>(CalendarSyntaxError::InvalidTime)
        },
{
    let text = seq![h1, h2, ':', m1, m2];
    let bytes = encode_utf8(text);
    lemma_untrimmed(text);
    assert(is_ascii_chars(text));
    is_ascii_chars_encode_utf8(text);
    assert(text[2] == ':' && text[0] == h1 && text[1] == h2 && text[3] == m1 && text[4] == m2);
    assert(text.contains(':') && !text.contains('-'));
    lemma_two_digit_value(bytes, 0);
    lemma_two_digit_value(bytes, 3);
    lemma_two_digit_value(seq![48u8, 48u8], 0);
    assert(seq![48u8, 48u8].subrange(0, 2) =~= seq![48u8, 48u8]);
}

/// Seconds may follow, with two digits.
pub proof fn lemma_written_seconds_are_read(
    h1: char,
    h2: char,
    m1: char,
    m2: char,
    s1: char,
    s2: char,
    r: Result<CalendarSyntax, CalendarSyntaxError>,
)
    requires
        digit(h1) && digit(h2) && digit(m1) && digit(m2) && digit(s1) && digit(s2),
        calendar_matches(seq![h1, h2, ':', m1, m2, ':', s1, s2], r),
    ensures
        if two_digits(h1, h2) < 24 && two_digits(m1, m2) < 60 && two_digits(s1, s2) < 60 {
            r matches Ok(CalendarSyntax::Time(time)) && time.is(
                two_digits(h1, h2),
                two_digits(m1, m2),
                two_digits(s1, s2),
            )
        } else {
            r == Err::<CalendarSyntax, CalendarSyntaxError>(CalendarSyntaxError::InvalidTime)
        },
{
    let text = seq![h1, h2, ':', m1, m2, ':', s1, s2];
    let bytes = encode_utf8(text);
    lemma_untrimmed(text);
    assert(is_ascii_chars(text));
    is_ascii_chars_encode_utf8(text);
    assert(text[2] == ':' && text[0] == h1 && text[1] == h2 && text[3] == m1 && text[4] == m2
        && text[5] == ':' && text[6] == s1 && text[7] == s2);
    assert(text.contains(':') && !text.contains('-'));
    lemma_two_digit_value(bytes, 0);
    lemma_two_digit_value(bytes, 3);
    lemma_two_digit_value(bytes, 6);
}

/// The number of a year, of which the four digits are given.
pub open spec fn four_digits(y1: char, y2: char, y3: char, y4: char) -> int {
    two_digits(y1, y2) * 100 + two_digits(y3, y4)
}

/// A date is written as year, month and day; it must be a day of the calendar.
pub proof fn lemma_written_date_is_read(
    y1: char,
    y2: char,
    y3: char,
    y4: char,
    m1: char,
    m2: char,
    d1: char,
    d2: char,
    r: Result<CalendarSyntax, CalendarSyntaxError>,
)
    requires
        digit(y1) && digit(y2) && digit(y3) && digit(y4),
        digit(m1) && digit(m2) && digit(d1) && digit(d2),
        calendar_matches(seq![y1, y2, y3, y4, '-', m1, m2, '-', d1, d2], r),
    ensures
        ({
            let year = four_digits(y1, y2, y3, y4);
            let month = two_digits(m1, m2);
            let day = two_digits(d1, d2);
            if valid_date(year, month, day) {
                r matches Ok(CalendarSyntax::Date(date)) && date.is(year, month, day)
            } else {
                r == Err::<CalendarSyntax, CalendarSyntaxError>(CalendarSyntaxError::InvalidDate)
            }
        }),
{
    let text = seq![y1, y2, y3, y4, '-', m1, m2, '-', d1, d2];
    let bytes = encode_utf8(text);
    lemma_untrimmed(text);
    assert(is_ascii_chars(text));
    is_ascii_chars_encode_utf8(text);
    assert(text[0] == y1 && text[1] == y2 && text[2] == y3 && text[3] == y4 && text[4] == '-'
        && text[5] == m1 && text[6] == m2 && text[7] == '-' && text[8] == d1 && text[9] == d2);
    assert(text.contains('-') && !text.contains(':'));
    lemma_four_digit_value(bytes);
    lemma_two_digit_value(bytes, 5);
    lemma_two_digit_value(bytes, 8);
}

/// A date and a time are written one after the other, with a `T` or a space between them.
pub proof fn lemma_written_date_and_time_are_read(
    y1: char,
    y2: char,
    y3: char,
    y4: char,
    m1: char,
    m2: char,
    d1: char,
    d2: char,
    between: char,
    h1: char,
    h2: char,
    n1: char,
    n2: char,
    r: Result<CalendarSyntax, CalendarSyntaxError>,
)
    requires
        digit(y1) && digit(y2) && digit(y3) && digit(y4),
        digit(m1) && digit(m2) && digit(d1) && digit(d2),
        digit(h1) && digit(h2) && digit(n1) && digit(n2),
        between == 'T' || between == ' ',
        calendar_matches(
            seq![y1, y2, y3, y4, '-', m1, m2, '-', d1, d2, between, h1, h2, ':', n1, n2],
            r,
        ),
    ensures
        ({
            let year = four_digits(y1, y2, y3, y4);
            let month = two_digits(m1, m2);
            let day = two_digits(d1, d2);
            let hour = two_digits(h1, h2);
            let minute = two_digits(n1, n2);
            if !valid_date(year, month, day) {
                r == Err::<CalendarSyntax, CalendarSyntaxError>(CalendarSyntaxError::InvalidDate)
            } else if hour >= 24 || minute >= 60 {
                r == Err::<CalendarSyntax, CalendarSyntaxError>(CalendarSyntaxError::InvalidTime)
            } else {
                r matches Ok(CalendarSyntax::DateTime(both)) && both.date.is(year, month, day)
                    && both.time.is(hour, minute, 0)
            }
        }),
{
    let text = seq![y1, y2, y3, y4, '-', m1, m2, '-', d1, d2, between, h1, h2, ':', n1, n2];
    let bytes = encode_utf8(text);
    lemma_untrimmed(text);
    assert(is_ascii_chars(text));
    is_ascii_chars_encode_utf8(text);
    assert(text[0] == y1 && text[1] == y2 && text[2] == y3 && text[3] == y4 && text[4] == '-'
        && text[5] == m1 && text[6] == m2 && text[7] == '-' && text[8] == d1 && text[9] == d2);
    assert(text[10] == between && text[11] == h1 && text[12] == h2 && text[13] == ':'
        && text[14] == n1 && text[15] == n2);
    assert(text.contains('-') && text.contains(':'));
    let date = bytes.subrange(0, 10);
    let time = bytes.subrange(11, 16);
    assert(time[0] == bytes[11] && time[1] == bytes[12] && time[2] == bytes[13] && time[3]
        == bytes[14] && time[4] == bytes[15]);
    lemma_four_digit_value(date);
    lemma_two_digit_value(date, 5);
    lemma_two_digit_value(date, 8);
    lemma_two_digit_value(time, 0);
    lemma_two_digit_value(time, 3);
    lemma_two_digit_value(seq![48u8, 48u8], 0);
    assert(seq![48u8, 48u8].subrange(0, 2) =~= seq![48u8, 48u8]);
}

/// A year has 365 days, or 366 in a leap year: every fourth year, but for full centuries that 400 does
/// not divide.
pub proof fn lemma_length_of_a_year(year: int)
    requires
        -9999 <= year < 9999,
    ensures
        epoch_day(year + 1, 1, 1) - epoch_day(year, 1, 1) == if year % 4 == 0 && (year % 100 != 0
            || year % 400 == 0) {
            366int
        } else {
            365int
        },
        epoch_day(1970, 1, 1) == 0,
{
}

// ---------------------------------------------------------------------------------------------
// Which instant a local time is
// ---------------------------------------------------------------------------------------------
/// A clock of the zone shows the local second at the instant; of a second that it shows twice, the
/// policy says which is meant, and one that it never shows is no instant.
pub open spec fn clock_shows(
    data: Seq<u8>,
    policy: DstResolution,
    local_second: int,
    nanos: int,
) -> bool {
    match zone_offset(data, local_second) {
        LocalOffset::Unambiguous { offset } => nanos == (local_second - offset) * 1_000_000_000,
        LocalOffset::Gap { .. } => false,
        LocalOffset::Fold { before, after } => {
            ||| policy == DstResolution::Earlier && nanos == (local_second - before) * 1_000_000_000
            ||| policy == DstResolution::Later && nanos == (local_second - after) * 1_000_000_000
        },
    }
}

/// The zone is the one that was asked for.
pub open spec fn zone_used(
    selection: TimeZoneSelection,
    local: Option<Seq<char>>,
    name: Seq<char>,
    data: Seq<u8>,
) -> bool {
    &&& tzif_loads(data)
    &&& match selection {
        TimeZoneSelection::Utc => tzdb_entry("UTC"@) == Some((name, data)),
        TimeZoneSelection::Named(asked) => tzdb_entry(asked@) == Some((name, data)),
        TimeZoneSelection::Local => local matches Some(set) && tzdb_entry(set) == Some(
            (name, data),
        ),
    }
}

/// The second of the day that a time of day is.
pub open spec fn second_of_day(time: CivilTime) -> int {
    time.spec_hour() * 3600 + time.spec_minute() * 60 + time.spec_second()
}

/// A time of day names today's reading of it if that is still to come, and else tomorrow's.
pub proof fn lemma_time_of_day_is_today_or_tomorrow(
    input: Seq<char>,
    selection: TimeZoneSelection,
    policy: DstResolution,
    no_rollover: bool,
    now: UtcTimestamp,
    local: Option<Seq<char>>,
    resolution: CalendarResolution,
    time: CivilTime,
    name: Seq<char>,
    data: Seq<u8>,
)
    requires
        resolution_matches(
            input,
            selection,
            policy,
            no_rollover,
            now,
            local,
            Ok::<CalendarResolution, CalendarError>(resolution),
        ),
        calendar_matches(
            input,
            Ok::<CalendarSyntax, CalendarSyntaxError>(CalendarSyntax::Time(time)),
        ),
        zone_used(selection, local, name, data),
    ensures
        resolution@.timezone == name,
        ({
            let today = zone_day(data, now@) * 86400 + second_of_day(time);
            let due = resolution@.resolved_utc@;
            ||| due > now@ && clock_shows(data, policy, today, due)
            ||| {
                &&& !no_rollover
                &&& clock_shows(data, policy, today + 86400, due)
                &&& exists|passed: int| #[trigger]
                    clock_shows(data, policy, today, passed) && passed <= now@
            }
        }),
{
    let today = zone_day(data, now@) * 86400 + second_of_day(time);
    match zone_offset(data, today) {
        LocalOffset::Unambiguous { offset } => {
            assert(clock_shows(data, policy, today, (today - offset) * 1_000_000_000));
        },
        LocalOffset::Fold { before, after } => {
            if policy == DstResolution::Earlier {
                assert(clock_shows(data, policy, today, (today - before) * 1_000_000_000));
            } else {
                assert(clock_shows(data, policy, today, (today - after) * 1_000_000_000));
            }
        },
        LocalOffset::Gap { .. } => {},
    }
}

/// The zone is always the same number of seconds east of UTC.
pub open spec fn fixed_offset(data: Seq<u8>, offset: i32) -> bool {
    &&& forall|second: int| #[trigger]
        zone_offset(data, second) == (LocalOffset::Unambiguous { offset })
    &&& forall|nanos: int| #[trigger]
        zone_day(data, nanos) == (nanos + offset * 1_000_000_000) / 86_400_000_000_000
}

/// Where clocks are never changed, a time of day that may roll over is within the next 24 hours, and
/// never now or in the past.
pub proof fn lemma_time_of_day_is_within_a_day(
    input: Seq<char>,
    selection: TimeZoneSelection,
    policy: DstResolution,
    now: UtcTimestamp,
    local: Option<Seq<char>>,
    resolution: CalendarResolution,
    time: CivilTime,
    name: Seq<char>,
    data: Seq<u8>,
    offset: i32,
)
    requires
        resolution_matches(
            input,
            selection,
            policy,
            false,
            now,
            local,
            Ok::<CalendarResolution, CalendarError>(resolution),
        ),
        calendar_matches(
            input,
            Ok::<CalendarSyntax, CalendarSyntaxError>(CalendarSyntax::Time(time)),
        ),
        zone_used(selection, local, name, data),
        fixed_offset(data, offset),
    ensures
        now@ < resolution@.resolved_utc@ <= now@ + 86_400_000_000_000,
        (resolution@.resolved_utc@ + offset * 1_000_000_000) % 86_400_000_000_000 == second_of_day(
            time,
        ) * 1_000_000_000,
{
    assert(0 <= second_of_day(time) < 86400);
    lemma_time_of_day_is_today_or_tomorrow(
        input,
        selection,
        policy,
        false,
        now,
        local,
        resolution,
        time,
        name,
        data,
    );
    let day = zone_day(data, now@);
    let today = day * 86400 + second_of_day(time);
    let due = resolution@.resolved_utc@;
    assert(zone_offset(data, today) == (LocalOffset::Unambiguous { offset }));
    assert(zone_offset(data, today + 86400) == (LocalOffset::Unambiguous { offset }));
    let here = now@ + offset * 1_000_000_000;
    assert(day == here / 86_400_000_000_000);
    assert(day * 86_400_000_000_000 <= here < day * 86_400_000_000_000 + 86_400_000_000_000);
    let at = second_of_day(time) * 1_000_000_000;
    if due > now@ && clock_shows(data, policy, today, due) {
        assert(due + offset * 1_000_000_000 == day * 86_400_000_000_000 + at);
    } else {
        assert(due + offset * 1_000_000_000 == (day + 1) * 86_400_000_000_000 + at);
    }
}

/// The local second that a day, or a day with a time, names; a day starts at midnight.
pub open spec fn local_second_of(syntax: CalendarSyntax) -> int {
    match syntax {
        CalendarSyntax::Date(date) => epoch_day(
            date.spec_year(),
            date.spec_month(),
            date.spec_day(),
        ) * 86400,
        CalendarSyntax::DateTime(both) => epoch_day(
            both.date.spec_year(),
            both.date.spec_month(),
            both.date.spec_day(),
        ) * 86400 + second_of_day(both.time),
        CalendarSyntax::Time(time) => second_of_day(time),
    }
}

/// The name of the zone, where it is given by name, is one that may be looked up.
pub open spec fn name_is_well_formed(selection: TimeZoneSelection) -> bool {
    selection matches TimeZoneSelection::Named(asked) ==> {
        &&& 1 <= asked@.len() <= 255
        &&& is_ascii_chars(asked@)
        &&& !asked@.contains('\0')
    }
}

proof fn lemma_ascii_length(name: Seq<char>)
    requires
        is_ascii_chars(name),
    ensures
        utf8_len(name) == name.len(),
{
    is_ascii_chars_encode_utf8(name);
}

/// The result holds the instant, with the zone and the policy that it was found with.
pub open spec fn resolves_to(
    r: Result<CalendarResolution, CalendarError>,
    input: Seq<char>,
    name: Seq<char>,
    policy: DstResolution,
    nanos: int,
) -> bool {
    r matches Ok(resolution) && {
        &&& resolution@.resolved_utc@ == nanos
        &&& resolution@.timezone == name
        &&& resolution@.original_input == input
        &&& resolution@.dst_resolution == policy
    }
}

/// The instant lies between the years -9999 and 9999.
pub open spec fn supported(nanos: int) -> bool {
    -377_705_023_201_000_000_000 <= nanos <= 253_402_207_200_000_000_000
}

/// A day, or a day with a time, names the instant at which a clock of the zone shows it. It is refused
/// where that is not in the future.
pub proof fn lemma_day_names_its_instant(
    input: Seq<char>,
    selection: TimeZoneSelection,
    policy: DstResolution,
    no_rollover: bool,
    now: UtcTimestamp,
    local: Option<Seq<char>>,
    r: Result<CalendarResolution, CalendarError>,
    syntax: CalendarSyntax,
    name: Seq<char>,
    data: Seq<u8>,
    nanos: int,
)
    requires
        resolution_matches(input, selection, policy, no_rollover, now, local, r),
        calendar_matches(input, Ok::<CalendarSyntax, CalendarSyntaxError>(syntax)),
        !(syntax is Time),
        name_is_well_formed(selection),
        zone_used(selection, local, name, data),
        clock_shows(data, policy, local_second_of(syntax), nanos),
    ensures
        if !supported(nanos) {
            r == Err::<CalendarResolution, CalendarError>(CalendarError::ResolutionOutOfRange)
        } else if nanos <= now@ {
            r == Err::<CalendarResolution, CalendarError>(CalendarError::NotFuture)
        } else {
            resolves_to(r, input, name, policy, nanos)
        },
{
    if let TimeZoneSelection::Named(asked) = selection {
        lemma_ascii_length(asked@);
    }
}

/// A local time that a clock of the zone never shows is refused, and so is one that it shows twice
/// where neither was chosen.
pub proof fn lemma_changed_clocks_are_not_guessed(
    input: Seq<char>,
    selection: TimeZoneSelection,
    policy: DstResolution,
    no_rollover: bool,
    now: UtcTimestamp,
    local: Option<Seq<char>>,
    r: Result<CalendarResolution, CalendarError>,
    syntax: CalendarSyntax,
    name: Seq<char>,
    data: Seq<u8>,
)
    requires
        resolution_matches(input, selection, policy, no_rollover, now, local, r),
        calendar_matches(input, Ok::<CalendarSyntax, CalendarSyntaxError>(syntax)),
        name_is_well_formed(selection),
        zone_used(selection, local, name, data),
    ensures
        ({
            let second = if syntax is Time {
                zone_day(data, now@) * 86400 + local_second_of(syntax)
            } else {
                local_second_of(syntax)
            };
            match zone_offset(data, second) {
                LocalOffset::Gap { .. } => r == Err::<CalendarResolution, CalendarError>(
                    CalendarError::NonexistentLocalTime,
                ),
                LocalOffset::Fold { .. } => policy == DstResolution::Reject ==> r == Err::<
                    CalendarResolution,
                    CalendarError,
                >(CalendarError::AmbiguousLocalTime),
                LocalOffset::Unambiguous { .. } => true,
            }
        }),
{
    if let TimeZoneSelection::Named(asked) = selection {
        lemma_ascii_length(asked@);
    }
}

/// A time of day that is still to come today is today's.
pub proof fn lemma_coming_time_of_day_is_today(
    input: Seq<char>,
    selection: TimeZoneSelection,
    policy: DstResolution,
    no_rollover: bool,
    now: UtcTimestamp,
    local: Option<Seq<char>>,
    r: Result<CalendarResolution, CalendarError>,
    time: CivilTime,
    name: Seq<char>,
    data: Seq<u8>,
    nanos: int,
)
    requires
        resolution_matches(input, selection, policy, no_rollover, now, local, r),
        calendar_matches(
            input,
            Ok::<CalendarSyntax, CalendarSyntaxError>(CalendarSyntax::Time(time)),
        ),
        name_is_well_formed(selection),
        zone_used(selection, local, name, data),
        clock_shows(
            data,
            policy,
            zone_day(data, now@) * 86400 + second_of_day(time),
            nanos,
        ),
        supported(nanos),
        nanos > now@,
    ensures
        resolves_to(r, input, name, policy, nanos),
{
    if let TimeZoneSelection::Named(asked) = selection {
        lemma_ascii_length(asked@);
    }
}

/// A time of day that has passed today is tomorrow's; it is refused where it may not roll over.
pub proof fn lemma_passed_time_of_day_is_tomorrow(
    input: Seq<char>,
    selection: TimeZoneSelection,
    policy: DstResolution,
    no_rollover: bool,
    now: UtcTimestamp,
    local: Option<Seq<char>>,
    r: Result<CalendarResolution, CalendarError>,
    time: CivilTime,
    name: Seq<char>,
    data: Seq<u8>,
    passed: int,
    nanos: int,
)
    requires
        resolution_matches(input, selection, policy, no_rollover, now, local, r),
        calendar_matches(
            input,
            Ok::<CalendarSyntax, CalendarSyntaxError>(CalendarSyntax::Time(time)),
        ),
        name_is_well_formed(selection),
        zone_used(selection, local, name, data),
        clock_shows(
            data,
            policy,
            zone_day(data, now@) * 86400 + second_of_day(time),
            passed,
        ),
        supported(passed),
        passed <= now@,
        clock_shows(
            data,
            policy,
            (zone_day(data, now@) + 1) * 86400 + second_of_day(time),
            nanos,
        ),
        supported(nanos),
        zone_day(data, now@) < epoch_day(9999, 12, 31),
    ensures
        if no_rollover {
            r == Err::<CalendarResolution, CalendarError>(CalendarError::RolloverDisabled)
        } else {
            resolves_to(r, input, name, policy, nanos)
        },
{
    if let TimeZoneSelection::Named(asked) = selection {
        lemma_ascii_length(asked@);
    }
}

/// Input that is not well written is refused for that, whatever the zone.
pub proof fn lemma_malformed_input_is_refused_first(
    input: Seq<char>,
    selection: TimeZoneSelection,
    policy: DstResolution,
    no_rollover: bool,
    now: UtcTimestamp,
    local: Option<Seq<char>>,
    r: Result<CalendarResolution, CalendarError>,
    error: CalendarSyntaxError,
)
    requires
        resolution_matches(input, selection, policy, no_rollover, now, local, r),
        calendar_matches(input, Err::<CalendarSyntax, CalendarSyntaxError>(error)),
    ensures
        r == Err::<CalendarResolution, CalendarError>(CalendarError::Syntax(error)),
{
}

/// A zone that cannot be found is refused: each reason has its own error.
pub proof fn lemma_unknown_zone_is_refused(
    input: Seq<char>,
    selection: TimeZoneSelection,
    policy: DstResolution,
    no_rollover: bool,
    now: UtcTimestamp,
    local: Option<Seq<char>>,
    r: Result<CalendarResolution, CalendarError>,
    syntax: CalendarSyntax,
)
    requires
        resolution_matches(input, selection, policy, no_rollover, now, local, r),
        calendar_matches(input, Ok::<CalendarSyntax, CalendarSyntaxError>(syntax)),
    ensures
        !name_is_well_formed(selection) ==> r == Err::<CalendarResolution, CalendarError>(
            CalendarError::InvalidTimeZone,
        ),
        selection matches TimeZoneSelection::Named(asked) && name_is_well_formed(selection)
            && tzdb_entry(asked@) is None ==> r == Err::<CalendarResolution, CalendarError>(
            CalendarError::TimeZoneNotFound,
        ),
        selection is Local && local is None ==> r == Err::<CalendarResolution, CalendarError>(
            CalendarError::LocalTimeZoneUnknown,
        ),
{
    if let TimeZoneSelection::Named(asked) = selection {
        if is_ascii_chars(asked@) {
            lemma_ascii_length(asked@);
        }
    }
}

/// Universal time is the zone with that name.
pub proof fn lemma_utc_is_a_named_zone(
    input: Seq<char>,
    selection: TimeZoneSelection,
    policy: DstResolution,
    no_rollover: bool,
    now: UtcTimestamp,
    local: Option<Seq<char>>,
    r: Result<CalendarResolution, CalendarError>,
    named: String,
)
    requires
        named@ == "UTC"@,
        selection == TimeZoneSelection::Utc,
    ensures
        resolution_matches(input, selection, policy, no_rollover, now, local, r)
            <==> resolution_matches(
            input,
            TimeZoneSelection::Named(named),
            policy,
            no_rollover,
            now,
            local,
            r,
        ),
{
    reveal_strlit("UTC");
    lemma_ascii_length(named@);
    assert(!named@.contains('\0'));
}

/// These are the days of the calendar: February has a 29th in leap years only.
pub proof fn lemma_days_of_the_calendar(year: int, month: int, day: int)
    ensures
        valid_date(year, month, day) <==> {
            &&& -9999 <= year <= 9999
            &&& 1 <= day <= 31
            &&& {
                ||| month == 1 || month == 3 || month == 5 || month == 7 || month == 8 || month == 10
                    || month == 12
                ||| (month == 4 || month == 6 || month == 9 || month == 11) && day <= 30
                ||| month == 2 && day <= 28
                ||| month == 2 && day == 29 && year % 4 == 0 && (year % 100 != 0 || year % 400 == 0)
            }
        },
{
}

} // verus!
