//! Calls into outside crates, each with what is relied on.
use vstd::prelude::*;

use crate::domain::calendar::{instant_at, LocalOffset};
use crate::domain::civil::{epoch_day, next_date, valid_date, valid_time};
use crate::domain::id::uuid_version;
use crate::domain::primitives::{in_time_range, MAX_SECOND, MIN_SECOND, NANOS_PER_SECOND};

verus! {

/// `jiff::civil::Date::new` succeeds exactly for the days of the years -9999 to 9999.
#[verifier::external_body]
pub(crate) fn date_exists(year: i16, month: i8, day: i8) -> (r: bool)
    ensures
        r == valid_date(year as int, month as int, day as int),
{
    jiff::civil::Date::new(year, month, day).is_ok()
}

/// `jiff::civil::Date::tomorrow` gives the following day, and fails after 9999-12-31.
#[verifier::external_body]
pub(crate) fn date_tomorrow(year: i16, month: i8, day: i8) -> (r: Option<(i16, i8, i8)>)
    requires
        valid_date(year as int, month as int, day as int),
    ensures
        match next_date(year as int, month as int, day as int) {
            Some(next) => r == Some((next.0 as i16, next.1 as i8, next.2 as i8)),
            None => r is None,
        },
{
    let next = jiff::civil::Date::new(year, month, day).ok()?.tomorrow().ok()?;
    Some((next.year(), next.month(), next.day()))
}

/// `jiff::civil::Time::new` with no fraction of a second succeeds exactly for the seconds of a
/// day of 24 hours; it takes no leap second.
#[verifier::external_body]
pub(crate) fn time_exists(hour: i8, minute: i8, second: i8) -> (r: bool)
    ensures
        r == valid_time(hour as int, minute as int, second as int),
{
    jiff::civil::Time::new(hour, minute, second, 0).is_ok()
}

// ---------------------------------------------------------------------------------------------
// Instants
// ---------------------------------------------------------------------------------------------
/// `jiff::Timestamp::new` with no nanoseconds succeeds exactly for the seconds from -377705023201
/// to 253402207200, and gives the instant so many seconds after the Unix epoch.
#[verifier::external_body]
pub(crate) fn timestamp_from_second(second: i64) -> (r: Option<i128>)
    ensures
        r == if MIN_SECOND <= second <= MAX_SECOND {
            Some((second * NANOS_PER_SECOND) as i128)
        } else {
            None
        },
{
    jiff::Timestamp::new(second, 0).ok().map(|timestamp| timestamp.as_nanosecond())
}

/// `jiff::Timestamp::from_nanosecond` succeeds exactly from the start of the first supported
/// second to the end of the last.
#[verifier::external_body]
pub(crate) fn timestamp_exists(nanos: i128) -> (r: bool)
    ensures
        r == in_time_range(nanos as int),
{
    jiff::Timestamp::from_nanosecond(nanos).is_ok()
}

/// `jiff::Timestamp::checked_add` of a duration in whole seconds gives the instant so much later,
/// and fails where that instant is not supported.
#[verifier::external_body]
pub(crate) fn timestamp_plus_seconds(nanos: i128, seconds: i64) -> (r: Option<i128>)
    requires
        in_time_range(nanos as int),
    ensures
        r == if in_time_range(nanos + seconds * NANOS_PER_SECOND) {
            Some((nanos + seconds * NANOS_PER_SECOND) as i128)
        } else {
            None
        },
{
    let start = jiff::Timestamp::from_nanosecond(nanos).ok()?;
    let end = start.checked_add(jiff::SignedDuration::from_secs(seconds)).ok()?;
    Some(end.as_nanosecond())
}

/// The instant that the parser of `jiff::Timestamp` reads in a text, in nanoseconds since the
/// Unix epoch.
pub uninterp spec fn timestamp_of_text(text: Seq<char>) -> Option<int>;

/// The text in which `jiff::Timestamp` is displayed.
pub uninterp spec fn timestamp_text(nanos: int) -> Seq<char>;

/// Parsing a text as `jiff::Timestamp` depends on the text alone, and an instant that it gives is
/// supported.
#[verifier::external_body]
pub(crate) fn parse_timestamp(text: &str) -> (r: Option<i128>)
    ensures
        match r {
            Some(nanos) => timestamp_of_text(text@) == Some(nanos as int) && in_time_range(
                nanos as int,
            ),
            None => timestamp_of_text(text@) is None,
        },
{
    text.parse::<jiff::Timestamp>().ok().map(|timestamp| timestamp.as_nanosecond())
}

/// The display of `jiff::Timestamp` depends on the instant alone. It renders the instant without
/// loss, so that parsing the text gives the instant back.
#[verifier::external_body]
pub(crate) fn format_timestamp(nanos: i128) -> (r: String)
    requires
        in_time_range(nanos as int),
    ensures
        r@ == timestamp_text(nanos as int),
        timestamp_of_text(r@) == Some(nanos as int),
{
    jiff::Timestamp::from_nanosecond(nanos).map(|timestamp| timestamp.to_string()).unwrap_or_default()
}

// ---------------------------------------------------------------------------------------------
// Time zones
// ---------------------------------------------------------------------------------------------
/// The canonical name and the TZif data that the bundled time zone database holds for a name.
pub uninterp spec fn tzdb_entry(name: Seq<char>) -> Option<(Seq<char>, Seq<u8>)>;

/// The version of the bundled time zone database, or the fallback where it has none.
pub uninterp spec fn tzdb_version_or(fallback: Seq<char>) -> Seq<char>;

/// The data is TZif data.
pub uninterp spec fn tzif_loads(data: Seq<u8>) -> bool;

/// The offsets that TZif data gives for a local clock reading, which is written as the number of
/// seconds since 1970-01-01 00:00:00 on that clock.
pub uninterp spec fn zone_offset(data: Seq<u8>, civil_second: int) -> LocalOffset;

/// The day, as a number of days since 1970-01-01, that it is at an instant on the local clock of
/// TZif data.
pub uninterp spec fn zone_day(data: Seq<u8>, nanos: int) -> int;

/// `jiff_tzdb::get` looks a name up in the bundled database; its answer depends on the name alone.
#[verifier::external_body]
pub(crate) fn find_zone(name: &str) -> (r: Option<(String, Vec<u8>)>)
    ensures
        match r {
            Some((canonical, data)) => tzdb_entry(name@) == Some((canonical@, data@)),
            None => tzdb_entry(name@) is None,
        },
{
    jiff_tzdb::get(name).map(|(canonical, data)| (canonical.to_owned(), data.to_vec()))
}

/// `jiff_tzdb::VERSION` is the version of the bundled database; it may be missing.
#[verifier::external_body]
pub(crate) fn zone_database_version(fallback: &'static str) -> (r: &'static str)
    ensures
        r@ == tzdb_version_or(fallback@),
{
    jiff_tzdb::VERSION.unwrap_or(fallback)
}

/// `jiff::tz::TimeZone::tzif` fails exactly where the data is no TZif data; the name does not
/// matter.
#[verifier::external_body]
pub(crate) fn zone_data_loads(name: &str, data: &[u8]) -> (r: bool)
    ensures
        r == tzif_loads(data@),
{
    jiff::tz::TimeZone::tzif(name, data).is_ok()
}

/// `jiff::tz::TimeZone::get` finds a zone in the machine's time zone database. Nothing is said of
/// its answer, as it depends on the machine.
#[verifier::external_body]
pub(crate) fn zone_is_known(name: &str) -> (r: bool) {
    jiff::tz::TimeZone::get(name).is_ok()
}

/// `jiff::tz::TimeZone::try_system` with `iana_name`: the name of the time zone that the machine
/// is set to, where one is found. Nothing is said of it, as it depends on the machine.
#[verifier::external_body]
pub(crate) fn system_zone_name() -> (r: Option<String>) {
    let zone = jiff::tz::TimeZone::try_system().ok()?;
    zone.iana_name().map(|name| name.to_owned())
}

/// `jiff::Timestamp::to_zoned` with `date` gives the day that it is at an instant on the local
/// clock; it depends on the zone's data and the instant alone.
#[verifier::external_body]
pub(crate) fn local_date(name: &str, data: &[u8], nanos: i128) -> (r: (i16, i8, i8))
    requires
        tzif_loads(data@),
        in_time_range(nanos as int),
    ensures
        valid_date(r.0 as int, r.1 as int, r.2 as int),
        epoch_day(r.0 as int, r.1 as int, r.2 as int) == zone_day(data@, nanos as int),
{
    let zone = jiff::tz::TimeZone::tzif(name, data).unwrap();
    let date = jiff::Timestamp::from_nanosecond(nanos).unwrap().to_zoned(zone).date();
    (date.year(), date.month(), date.day())
}

/// `jiff::tz::TimeZone::to_ambiguous_zoned` with `offset` tells which offsets a zone has for a
/// local clock reading; it depends on the zone's data and the reading alone.
#[verifier::external_body]
pub(crate) fn local_offset(
    name: &str,
    data: &[u8],
    date: (i16, i8, i8),
    time: (i8, i8, i8),
) -> (r: LocalOffset)
    requires
        tzif_loads(data@),
        valid_date(date.0 as int, date.1 as int, date.2 as int),
        valid_time(time.0 as int, time.1 as int, time.2 as int),
    ensures
        r == zone_offset(data@, civil_second(date, time)),
{
    let zone = jiff::tz::TimeZone::tzif(name, data).unwrap();
    let day = jiff::civil::Date::new(date.0, date.1, date.2).unwrap();
    match zone.to_ambiguous_zoned(day.at(time.0, time.1, time.2, 0)).offset() {
        jiff::tz::AmbiguousOffset::Unambiguous { offset } => {
            LocalOffset::Unambiguous { offset: offset.seconds() }
        },
        jiff::tz::AmbiguousOffset::Gap { before, after } => {
            LocalOffset::Gap { before: before.seconds(), after: after.seconds() }
        },
        jiff::tz::AmbiguousOffset::Fold { before, after } => {
            LocalOffset::Fold { before: before.seconds(), after: after.seconds() }
        },
    }
}

/// The number of seconds since 1970-01-01 00:00:00 of a local clock reading.
pub open spec fn civil_second(date: (i16, i8, i8), time: (i8, i8, i8)) -> int {
    epoch_day(date.0 as int, date.1 as int, date.2 as int) * 86400 + time.0 * 3600 + time.1 * 60
        + time.2
}

/// `jiff::tz::AmbiguousZoned::earlier` takes the offset before a fold and the offset after a gap.
/// It fails where the instant is not supported.
#[verifier::external_body]
pub(crate) fn earlier_instant(
    name: &str,
    data: &[u8],
    date: (i16, i8, i8),
    time: (i8, i8, i8),
) -> (r: Option<i128>)
    requires
        tzif_loads(data@),
        valid_date(date.0 as int, date.1 as int, date.2 as int),
        valid_time(time.0 as int, time.1 as int, time.2 as int),
    ensures
        r == match zone_offset(data@, civil_second(date, time)) {
            LocalOffset::Unambiguous { offset } => instant_at(civil_second(date, time), offset),
            LocalOffset::Gap { after, .. } => instant_at(civil_second(date, time), after),
            LocalOffset::Fold { before, .. } => instant_at(civil_second(date, time), before),
        },
{
    let zone = jiff::tz::TimeZone::tzif(name, data).unwrap();
    let day = jiff::civil::Date::new(date.0, date.1, date.2).unwrap();
    let ambiguous = zone.to_ambiguous_zoned(day.at(time.0, time.1, time.2, 0));
    ambiguous.earlier().ok().map(|zoned| zoned.timestamp().as_nanosecond())
}

/// `jiff::tz::AmbiguousZoned::later` takes the offset after a fold and the offset before a gap.
/// It fails where the instant is not supported.
#[verifier::external_body]
pub(crate) fn later_instant(
    name: &str,
    data: &[u8],
    date: (i16, i8, i8),
    time: (i8, i8, i8),
) -> (r: Option<i128>)
    requires
        tzif_loads(data@),
        valid_date(date.0 as int, date.1 as int, date.2 as int),
        valid_time(time.0 as int, time.1 as int, time.2 as int),
    ensures
        r == match zone_offset(data@, civil_second(date, time)) {
            LocalOffset::Unambiguous { offset } => instant_at(civil_second(date, time), offset),
            LocalOffset::Gap { before, .. } => instant_at(civil_second(date, time), before),
            LocalOffset::Fold { after, .. } => instant_at(civil_second(date, time), after),
        },
{
    let zone = jiff::tz::TimeZone::tzif(name, data).unwrap();
    let day = jiff::civil::Date::new(date.0, date.1, date.2).unwrap();
    let ambiguous = zone.to_ambiguous_zoned(day.at(time.0, time.1, time.2, 0));
    ambiguous.later().ok().map(|zoned| zoned.timestamp().as_nanosecond())
}

/// `jiff::tz::AmbiguousZoned::unambiguous` takes the only offset; it fails in a gap, in a fold,
/// and where the instant is not supported.
#[verifier::external_body]
pub(crate) fn unambiguous_instant(
    name: &str,
    data: &[u8],
    date: (i16, i8, i8),
    time: (i8, i8, i8),
) -> (r: Option<i128>)
    requires
        tzif_loads(data@),
        valid_date(date.0 as int, date.1 as int, date.2 as int),
        valid_time(time.0 as int, time.1 as int, time.2 as int),
    ensures
        r == match zone_offset(data@, civil_second(date, time)) {
            LocalOffset::Unambiguous { offset } => instant_at(civil_second(date, time), offset),
            _ => None,
        },
{
    let zone = jiff::tz::TimeZone::tzif(name, data).unwrap();
    let day = jiff::civil::Date::new(date.0, date.1, date.2).unwrap();
    let ambiguous = zone.to_ambiguous_zoned(day.at(time.0, time.1, time.2, 0));
    ambiguous.unambiguous().ok().map(|zoned| zoned.timestamp().as_nanosecond())
}

// ---------------------------------------------------------------------------------------------
// Identifiers
// ---------------------------------------------------------------------------------------------
/// `uuid::Uuid::now_v7` makes a UUID of version 7 from the current time and random bits. Beyond
/// the version nothing is said of its number.
#[verifier::external_body]
pub(crate) fn fresh_uuid() -> (r: u128)
    ensures
        uuid_version(r) == 7,
{
    uuid::Uuid::now_v7().as_u128()
}

/// `getrandom::fill` fills a buffer with random bytes of the operating system, or fails. Nothing
/// is said of the bytes, nor of when it fails.
#[verifier::external_body]
pub(crate) fn random_token() -> (r: Result<[u8; 32], String>) {
    let mut token: [u8; 32] = [0; 32];
    match getrandom::fill(&mut token) {
        Ok(()) => Ok(token),
        Err(error) => Err(error.to_string()),
    }
}

// ---------------------------------------------------------------------------------------------
// Signals
// ---------------------------------------------------------------------------------------------
/// `libc::SIGHUP`, `libc::SIGINT`, `libc::SIGQUIT`, `libc::SIGKILL` and `libc::SIGTERM`, in this
/// order: their numbers are the same on Linux and macOS.
#[verifier::external_body]
pub(crate) fn signal_numbers() -> (r: (i32, i32, i32, i32, i32))
    ensures
        r == (1i32, 2i32, 3i32, 9i32, 15i32),
{
    (libc::SIGHUP, libc::SIGINT, libc::SIGQUIT, libc::SIGKILL, libc::SIGTERM)
}

// ---------------------------------------------------------------------------------------------
// Texts
// ---------------------------------------------------------------------------------------------
/// `jiff::Timestamp::to_zoned` with `strftime`: an instant on the clock of the machine, in a format.
/// Nothing is said of the text, as it depends on the time zone of the machine. Writing the text panics
/// on a format that cannot be applied, so that only the one in use is allowed.
#[verifier::external_body]
pub(crate) fn local_time_text(nanos: i128, format: &str) -> (r: String)
    requires
        in_time_range(nanos as int),
        format@ == "%Y-%m-%d %H:%M:%S %:z"@,
{
    let instant = jiff::Timestamp::from_nanosecond(nanos).unwrap_or_default();
    let zoned = instant.to_zoned(jiff::tz::TimeZone::system());
    zoned.strftime(format).to_string()
}

/// The text that the lossy UTF-8 decoding of the standard library gives for bytes.
pub uninterp spec fn text_of_bytes(bytes: Seq<u8>) -> Seq<char>;

/// `String::from_utf8_lossy` depends on the bytes alone. Bytes that are the UTF-8 encoding of a
/// text give that text.
#[verifier::external_body]
pub(crate) fn lossy_text(bytes: &[u8]) -> (r: String)
    ensures
        r@ == text_of_bytes(bytes@),
        forall|text: Seq<char>| bytes@ == #[trigger] vstd::utf8::encode_utf8(text) ==> r@ == text,
{
    String::from_utf8_lossy(bytes).into_owned()
}

} // verus!
