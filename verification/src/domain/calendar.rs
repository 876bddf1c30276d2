//! Calendar timezone resolution.
use vstd::prelude::*;
use vstd::utf8::is_ascii_chars;

use super::calendar_syntax::{
    calendar_matches, calendar_syntax_message, parse_calendar, CalendarSyntax, CalendarSyntaxError,
};
use super::civil::{
    epoch_day, lemma_epoch_day_counts_days, next_date, valid_date, CivilDate, CivilDateTime,
    CivilTime,
};
use super::primitives::{
    in_time_range, UtcTimestamp, MAX_SECOND, MIN_SECOND, NANOS_PER_SECOND,
};
use super::schedule::DstResolution;
use crate::outside::{self, tzdb_entry, tzdb_version_or, tzif_loads, zone_day, zone_offset};
use crate::text::{byte_len, contains_char, copy_text, utf8_len};

verus! {

/// The longest time zone identifier, in bytes.
pub const MAX_TIMEZONE_BYTES: usize = 255;

/// In which time zone calendar input is meant.
#[derive(Debug, PartialEq, Eq)]
pub enum TimeZoneSelection {
    /// The time zone that the machine is set to.
    Local,
    /// Coordinated universal time.
    Utc,
    /// The time zone with this IANA identifier.
    Named(String),
}

/// The offsets, in seconds east of UTC, that a zone has for a local clock reading.
#[derive(Clone, Copy, Debug, PartialEq, Eq, Structural)]
pub enum LocalOffset {
    /// The reading occurs once.
    Unambiguous { offset: i32 },
    /// The reading is skipped.
    Gap { before: i32, after: i32 },
    /// The reading occurs twice.
    Fold { before: i32, after: i32 },
}

/// Why calendar input was refused.
#[derive(Clone, Copy, Debug, PartialEq, Eq, Structural)]
pub enum CalendarError {
    /// The input is malformed.
    Syntax(CalendarSyntaxError),
    /// The time zone identifier is malformed.
    InvalidTimeZone,
    /// There is no such time zone in the bundled database.
    TimeZoneNotFound,
    /// The machine's time zone has no identifier.
    LocalTimeZoneUnknown,
    /// The local time is skipped.
    NonexistentLocalTime,
    /// The local time occurs twice and neither was chosen.
    AmbiguousLocalTime,
    /// The instant is outside the supported range.
    ResolutionOutOfRange,
    /// The instant is not in the future.
    NotFuture,
    /// The time of day has passed and may not roll over.
    RolloverDisabled,
}

/// The message of a calendar error.
pub open spec fn calendar_error_message(error: CalendarError) -> Seq<char> {
    match error {
        CalendarError::Syntax(inner) => calendar_syntax_message(inner),
        CalendarError::InvalidTimeZone => "timezone identifier must be 1..=255 ASCII bytes"@,
        CalendarError::TimeZoneNotFound => {
            "timezone identifier was not found in the bundled database"@
        },
        CalendarError::LocalTimeZoneUnknown => {
            "the system local timezone cannot be mapped to an IANA identifier"@
        },
        CalendarError::NonexistentLocalTime => {
            "local time does not exist because of a timezone transition"@
        },
        CalendarError::AmbiguousLocalTime => "local time occurs twice; choose earlier or later"@,
        CalendarError::ResolutionOutOfRange => {
            "resolved calendar time is outside the supported range"@
        },
        CalendarError::NotFuture => "resolved calendar time must be in the future"@,
        CalendarError::RolloverDisabled => "time has passed today and rollover is disabled"@,
    }
}

impl CalendarError {
    /// The error as a message.
    pub fn to_string(&self) -> (text: String)
        ensures
            text@ == calendar_error_message(*self),
    {
        match self {
            CalendarError::Syntax(inner) => inner.to_string(),
            CalendarError::InvalidTimeZone => {
                "timezone identifier must be 1..=255 ASCII bytes".to_owned()
            },
            CalendarError::TimeZoneNotFound => {
                "timezone identifier was not found in the bundled database".to_owned()
            },
            CalendarError::LocalTimeZoneUnknown => {
                "the system local timezone cannot be mapped to an IANA identifier".to_owned()
            },
            CalendarError::NonexistentLocalTime => {
                "local time does not exist because of a timezone transition".to_owned()
            },
            CalendarError::AmbiguousLocalTime => {
                "local time occurs twice; choose earlier or later".to_owned()
            },
            CalendarError::ResolutionOutOfRange => {
                "resolved calendar time is outside the supported range".to_owned()
            },
            CalendarError::NotFuture => "resolved calendar time must be in the future".to_owned(),
            CalendarError::RolloverDisabled => {
                "time has passed today and rollover is disabled".to_owned()
            },
        }
    }
}

// ---------------------------------------------------------------------------------------------
// What resolution means
// ---------------------------------------------------------------------------------------------
/// The instant at which a clock that is `offset` seconds east of UTC shows the given second, if
/// it is supported.
pub open spec fn instant_at(civil_second: int, offset: i32) -> Option<i128> {
    if MIN_SECOND <= civil_second - offset <= MAX_SECOND {
        Some(((civil_second - offset) * NANOS_PER_SECOND) as i128)
    } else {
        None
    }
}

/// The name is one that may be looked up.
pub open spec fn valid_zone_name(name: Seq<char>) -> bool {
    &&& utf8_len(name) <= MAX_TIMEZONE_BYTES
    &&& is_ascii_chars(name)
    &&& !name.contains('\0')
    &&& name.len() > 0
}

/// The zone identifier to look up, where the machine is set to the zone `local`.
pub open spec fn requested_zone(
    selection: TimeZoneSelection,
    local: Option<Seq<char>>,
) -> Result<Seq<char>, CalendarError> {
    match selection {
        TimeZoneSelection::Utc => Ok("UTC"@),
        TimeZoneSelection::Named(name) => if valid_zone_name(name@) {
            Ok(name@)
        } else {
            Err(CalendarError::InvalidTimeZone)
        },
        TimeZoneSelection::Local => match local {
            Some(name) => Ok(name),
            None => Err(CalendarError::LocalTimeZoneUnknown),
        },
    }
}

/// The canonical name and the data of the zone to resolve in.
pub open spec fn selected_zone(
    selection: TimeZoneSelection,
    local: Option<Seq<char>>,
) -> Result<(Seq<char>, Seq<u8>), CalendarError> {
    match requested_zone(selection, local) {
        Err(error) => Err(error),
        Ok(name) => match tzdb_entry(name) {
            Some((canonical, data)) => if tzif_loads(data) {
                Ok((canonical, data))
            } else {
                Err(CalendarError::TimeZoneNotFound)
            },
            None => Err(CalendarError::TimeZoneNotFound),
        },
    }
}

/// The instant, in nanoseconds, of a local clock reading with the given offsets.
pub open spec fn chosen_instant(
    offsets: LocalOffset,
    civil_second: int,
    policy: DstResolution,
) -> Result<int, CalendarError> {
    let instant = match offsets {
        LocalOffset::Gap { .. } => Err(CalendarError::NonexistentLocalTime),
        LocalOffset::Fold { before, after } => match policy {
            DstResolution::Reject => Err(CalendarError::AmbiguousLocalTime),
            DstResolution::Earlier => Ok(instant_at(civil_second, before)),
            DstResolution::Later => Ok(instant_at(civil_second, after)),
        },
        LocalOffset::Unambiguous { offset } => Ok(instant_at(civil_second, offset)),
    };
    match instant {
        Err(error) => Err(error),
        Ok(None) => Err(CalendarError::ResolutionOutOfRange),
        Ok(Some(nanos)) => Ok(nanos as int),
    }
}

/// The number of the last supported day, 9999-12-31.
pub open spec fn last_day() -> int {
    epoch_day(9999, 12, 31)
}

/// The instant of a time of day in a zone: today's if it is still to come, else tomorrow's.
pub open spec fn time_instant(
    data: Seq<u8>,
    second_of_day: int,
    policy: DstResolution,
    no_rollover: bool,
    now: int,
) -> Result<int, CalendarError> {
    let today = zone_day(data, now) * 86400 + second_of_day;
    match chosen_instant(zone_offset(data, today), today, policy) {
        Err(error) => Err(error),
        Ok(candidate) => if candidate > now {
            Ok(candidate)
        } else if no_rollover {
            Err(CalendarError::RolloverDisabled)
        } else if zone_day(data, now) >= last_day() {
            Err(CalendarError::ResolutionOutOfRange)
        } else {
            chosen_instant(zone_offset(data, today + 86400), today + 86400, policy)
        },
    }
}

/// The instant of a day and time in a zone; it must be in the future.
pub open spec fn datetime_instant(
    data: Seq<u8>,
    civil_second: int,
    policy: DstResolution,
    now: int,
) -> Result<int, CalendarError> {
    match chosen_instant(zone_offset(data, civil_second), civil_second, policy) {
        Err(error) => Err(error),
        Ok(candidate) => if candidate <= now {
            Err(CalendarError::NotFuture)
        } else {
            Ok(candidate)
        },
    }
}

/// The instant that a parsed calendar input names in a zone.
pub open spec fn syntax_instant(
    syntax: CalendarSyntax,
    data: Seq<u8>,
    policy: DstResolution,
    no_rollover: bool,
    now: int,
) -> Result<int, CalendarError> {
    match syntax {
        CalendarSyntax::Time(time) => time_instant(data, time.number(), policy, no_rollover, now),
        CalendarSyntax::Date(date) => datetime_instant(data, date.number() * 86400, policy, now),
        CalendarSyntax::DateTime(both) => datetime_instant(data, both.seconds(), policy, now),
    }
}

/// The result is what resolving the input gives on a machine that is set to the zone `local`.
pub open spec fn resolution_matches(
    input: Seq<char>,
    selection: TimeZoneSelection,
    policy: DstResolution,
    no_rollover: bool,
    now: UtcTimestamp,
    local: Option<Seq<char>>,
    r: Result<CalendarResolution, CalendarError>,
) -> bool {
    exists|parsed: Result<CalendarSyntax, CalendarSyntaxError>|
        {
            &&& #[trigger] calendar_matches(input, parsed)
            &&& match parsed {
                Err(error) => r == Err::<CalendarResolution, CalendarError>(
                    CalendarError::Syntax(error),
                ),
                Ok(syntax) => match selected_zone(selection, local) {
                    Err(error) => r == Err::<CalendarResolution, CalendarError>(error),
                    Ok((canonical, data)) => match syntax_instant(
                        syntax,
                        data,
                        policy,
                        no_rollover,
                        now@,
                    ) {
                        Err(error) => r == Err::<CalendarResolution, CalendarError>(error),
                        Ok(nanos) => r matches Ok(resolution) && {
                            &&& resolution@.original_input == input
                            &&& resolution@.timezone == canonical
                            &&& resolution@.timezone_database_version == tzdb_version_or(
                                "unknown"@,
                            )
                            &&& resolution@.resolved_utc@ == nanos
                            &&& resolution@.dst_resolution == policy
                        },
                    },
                },
            }
        }
}

/// An accepted local time is shown, at the resolved instant, by a clock with an offset that the
/// zone has for that local time; a skipped time is never accepted, and a repeated one only where
/// the earlier or the later was chosen.
pub proof fn lemma_resolution_keeps_wall_clock(
    offsets: LocalOffset,
    civil_second: int,
    policy: DstResolution,
)
    ensures
        chosen_instant(offsets, civil_second, policy) matches Ok(nanos) ==> {
            &&& in_time_range(nanos)
            &&& match offsets {
                LocalOffset::Unambiguous { offset } => nanos == (civil_second - offset)
                    * NANOS_PER_SECOND,
                LocalOffset::Gap { .. } => false,
                LocalOffset::Fold { before, after } => {
                    ||| policy == DstResolution::Earlier && nanos == (civil_second - before)
                        * NANOS_PER_SECOND
                    ||| policy == DstResolution::Later && nanos == (civil_second - after)
                        * NANOS_PER_SECOND
                },
            }
        },
        offsets is Gap ==> chosen_instant(offsets, civil_second, policy) == Err::<
            int,
            CalendarError,
        >(CalendarError::NonexistentLocalTime),
{
}

/// A day or a day with a time only resolves to an instant in the future, and so does a time of
/// day that may not roll over.
pub proof fn lemma_resolution_is_future(
    syntax: CalendarSyntax,
    data: Seq<u8>,
    policy: DstResolution,
    no_rollover: bool,
    now: int,
)
    requires
        syntax is Time ==> no_rollover,
    ensures
        syntax_instant(syntax, data, policy, no_rollover, now) matches Ok(nanos) ==> nanos > now,
{
}

// ---------------------------------------------------------------------------------------------
// Resolution
// ---------------------------------------------------------------------------------------------
/// A resolved calendar input, with what it was resolved from.
#[derive(Debug, PartialEq, Eq)]
pub struct CalendarResolution {
    original_input: String,
    timezone: String,
    timezone_database_version: String,
    resolved_utc: UtcTimestamp,
    dst_resolution: DstResolution,
}

/// A resolution with its texts as character sequences.
pub struct CalendarResolutionModel {
    pub original_input: Seq<char>,
    pub timezone: Seq<char>,
    pub timezone_database_version: Seq<char>,
    pub resolved_utc: UtcTimestamp,
    pub dst_resolution: DstResolution,
}

impl View for CalendarResolution {
    type V = CalendarResolutionModel;

    closed spec fn view(&self) -> CalendarResolutionModel {
        CalendarResolutionModel {
            original_input: self.original_input@,
            timezone: self.timezone@,
            timezone_database_version: self.timezone_database_version@,
            resolved_utc: self.resolved_utc,
            dst_resolution: self.dst_resolution,
        }
    }
}

impl CalendarResolution {
    /// The input as it was given.
    pub fn original_input(&self) -> (r: &str)
        ensures
            r@ == self@.original_input,
    {
        self.original_input.as_str()
    }

    /// The canonical name of the zone.
    pub fn timezone(&self) -> (r: &str)
        ensures
            r@ == self@.timezone,
    {
        self.timezone.as_str()
    }

    /// The version of the bundled time zone database.
    pub fn timezone_database_version(&self) -> (r: &str)
        ensures
            r@ == self@.timezone_database_version,
    {
        self.timezone_database_version.as_str()
    }

    /// The instant.
    pub fn resolved_utc(&self) -> (r: UtcTimestamp)
        ensures
            r == self@.resolved_utc,
    {
        self.resolved_utc
    }

    /// How a repeated local time was to be resolved.
    pub fn dst_resolution(&self) -> (r: DstResolution)
        ensures
            r == self@.dst_resolution,
    {
        self.dst_resolution
    }
}

/// The version of the bundled time zone database, `unknown` where it has none.
pub fn bundled_tzdb_version() -> (r: &'static str)
    ensures
        r@ == tzdb_version_or("unknown"@),
{
    outside::zone_database_version("unknown")
}

/// A zone of the bundled database.
pub struct Zone {
    name: String,
    data: Vec<u8>,
}

impl Zone {
    #[verifier::type_invariant]
    spec fn wf(self) -> bool {
        tzif_loads(self.data@)
    }

    pub closed spec fn spec_name(self) -> Seq<char> {
        self.name@
    }

    pub closed spec fn spec_data(self) -> Seq<u8> {
        self.data@
    }
}

/// The machine was asked for the zone that it is set to, with this answer.
pub closed spec fn is_system_zone(local: Option<String>) -> bool {
    call_ensures(outside::system_zone_name, (), local)
}

/// The machine was asked for its zone where that is selected, with this answer.
pub open spec fn local_zone(selection: TimeZoneSelection, local: Option<String>) -> bool {
    match selection {
        TimeZoneSelection::Local => is_system_zone(local),
        _ => local is None,
    }
}

/// Resolves calendar input to an instant.
pub fn resolve_calendar(
    input: &str,
    selection: &TimeZoneSelection,
    dst_resolution: DstResolution,
    no_rollover: bool,
    now: UtcTimestamp,
) -> (r: Result<CalendarResolution, CalendarError>)
    ensures
        exists|local: Option<String>|
            {
                &&& #[trigger] local_zone(*selection, local)
                &&& resolution_matches(
                    input@,
                    *selection,
                    dst_resolution,
                    no_rollover,
                    now,
                    local_name(local),
                    r,
                )
            },
{
    let local: Option<String> = match selection {
        TimeZoneSelection::Local => outside::system_zone_name(),
        _ => None,
    };
    assert(local_zone(*selection, local));
    resolve_calendar_at(input, selection, dst_resolution, no_rollover, now, local)
}

/// The machine's zone as a character sequence.
pub open spec fn local_name(local: Option<String>) -> Option<Seq<char>> {
    match local {
        Some(name) => Some(name@),
        None => None,
    }
}

/// Resolves calendar input to an instant on a machine that is set to the zone `local`.
pub fn resolve_calendar_at(
    input: &str,
    selection: &TimeZoneSelection,
    dst_resolution: DstResolution,
    no_rollover: bool,
    now: UtcTimestamp,
    local: Option<String>,
) -> (r: Result<CalendarResolution, CalendarError>)
    ensures
        resolution_matches(
            input@,
            *selection,
            dst_resolution,
            no_rollover,
            now,
            local_name(local),
            r,
        ),
{
    let parsed: Result<CalendarSyntax, CalendarSyntaxError> = parse_calendar(input);
    assert(calendar_matches(input@, parsed));
    let syntax: CalendarSyntax = match parsed {
        Ok(syntax) => syntax,
        Err(error) => {
            return Err(CalendarError::Syntax(error));
        },
    };
    let zone: Zone = match resolve_time_zone(selection, local) {
        Ok(zone) => zone,
        Err(error) => {
            return Err(error);
        },
    };
    let resolved: Result<UtcTimestamp, CalendarError> = match syntax {
        CalendarSyntax::Time(time) => resolve_time_only(
            time,
            &zone,
            dst_resolution,
            no_rollover,
            now,
        ),
        CalendarSyntax::Date(date) => {
            let candidate = CivilDateTime { date, time: CivilTime::midnight() };
            match resolve_datetime(candidate, &zone, dst_resolution) {
                Ok(instant) => require_future(instant, now),
                Err(error) => Err(error),
            }
        },
        CalendarSyntax::DateTime(candidate) => {
            match resolve_datetime(candidate, &zone, dst_resolution) {
                Ok(instant) => require_future(instant, now),
                Err(error) => Err(error),
            }
        },
    };
    match resolved {
        Ok(resolved_utc) => Ok(
            CalendarResolution {
                original_input: copy_text(input),
                timezone: zone.name,
                timezone_database_version: copy_text(bundled_tzdb_version()),
                resolved_utc,
                dst_resolution,
            },
        ),
        Err(error) => Err(error),
    }
}

/// Finds the selected zone in the bundled database.
pub fn resolve_time_zone(selection: &TimeZoneSelection, local: Option<String>) -> (r: Result<
    Zone,
    CalendarError,
>)
    ensures
        match selected_zone(*selection, local_name(local)) {
            Ok((canonical, data)) => r matches Ok(zone) && zone.spec_name() == canonical
                && zone.spec_data() == data,
            Err(error) => r == Err::<Zone, CalendarError>(error),
        },
{
    let requested: String = match selection {
        TimeZoneSelection::Utc => "UTC".to_owned(),
        TimeZoneSelection::Named(name) => {
            let text: &str = name.as_str();
            if byte_len(text) > MAX_TIMEZONE_BYTES || !text.is_ascii() || contains_char(text, '\0')
                || text.unicode_len() == 0 {
                return Err(CalendarError::InvalidTimeZone);
            }
            copy_text(text)
        },
        TimeZoneSelection::Local => match local {
            Some(name) => name,
            None => {
                return Err(CalendarError::LocalTimeZoneUnknown);
            },
        },
    };
    match outside::find_zone(requested.as_str()) {
        Some((name, data)) => {
            if outside::zone_data_loads(name.as_str(), data.as_slice()) {
                Ok(Zone { name, data })
            } else {
                Err(CalendarError::TimeZoneNotFound)
            }
        },
        None => Err(CalendarError::TimeZoneNotFound),
    }
}

/// Resolves a time of day to today or tomorrow.
pub fn resolve_time_only(
    time: CivilTime,
    zone: &Zone,
    dst_resolution: DstResolution,
    no_rollover: bool,
    now: UtcTimestamp,
) -> (r: Result<UtcTimestamp, CalendarError>)
    ensures
        match time_instant(zone.spec_data(), time.number(), dst_resolution, no_rollover, now@) {
            Ok(nanos) => r matches Ok(instant) && instant@ == nanos,
            Err(error) => r == Err::<UtcTimestamp, CalendarError>(error),
        },
{
    proof {
        use_type_invariant(zone);
    }
    let parts: (i16, i8, i8) = outside::local_date(
        zone.name.as_str(),
        zone.data.as_slice(),
        now.as_nanosecond(),
    );
    let today: CivilDate = match CivilDate::new(parts.0, parts.1, parts.2) {
        Some(date) => date,
        None => {
            return Err(CalendarError::ResolutionOutOfRange);
        },
    };
    let candidate: UtcTimestamp = match resolve_datetime(
        CivilDateTime { date: today, time },
        zone,
        dst_resolution,
    ) {
        Ok(candidate) => candidate,
        Err(error) => {
            return Err(error);
        },
    };
    if now.is_before(candidate) {
        return Ok(candidate);
    }
    if no_rollover {
        return Err(CalendarError::RolloverDisabled);
    }
    proof {
        lemma_epoch_day_counts_days(parts.0 as int, parts.1 as int, parts.2 as int);
        lemma_last_day(parts.0 as int, parts.1 as int, parts.2 as int);
    }
    let tomorrow: CivilDate = match today.tomorrow() {
        Some(date) => date,
        None => {
            return Err(CalendarError::ResolutionOutOfRange);
        },
    };
    resolve_datetime(CivilDateTime { date: tomorrow, time }, zone, dst_resolution)
}

proof fn lemma_last_day(year: int, month: int, day: int)
    requires
        valid_date(year, month, day),
    ensures
        (next_date(year, month, day) is None) == (epoch_day(year, month, day) >= last_day()),
{
    if next_date(year, month, day) is None {
        assert(year == 9999 && month == 12 && day == 31);
    } else {
        assert(epoch_day(year, month, day) < epoch_day(9999, 12, 31));
    }
}

/// The instant of a local day and time in a zone.
pub fn resolve_datetime(
    date_time: CivilDateTime,
    zone: &Zone,
    dst_resolution: DstResolution,
) -> (r: Result<UtcTimestamp, CalendarError>)
    ensures
        match chosen_instant(
            zone_offset(zone.spec_data(), date_time.seconds()),
            date_time.seconds(),
            dst_resolution,
        ) {
            Ok(nanos) => r matches Ok(instant) && instant@ == nanos,
            Err(error) => r == Err::<UtcTimestamp, CalendarError>(error),
        },
{
    proof {
        use_type_invariant(zone);
    }
    let name: &str = zone.name.as_str();
    let data: &[u8] = zone.data.as_slice();
    let date: (i16, i8, i8) = date_time.date.components();
    let time: (i8, i8, i8) = date_time.time.components();
    assert(outside::civil_second(date, time) == date_time.seconds());
    let instant: Option<i128> = match outside::local_offset(name, data, date, time) {
        LocalOffset::Gap { .. } => {
            return Err(CalendarError::NonexistentLocalTime);
        },
        LocalOffset::Fold { .. } => match dst_resolution {
            DstResolution::Reject => {
                return Err(CalendarError::AmbiguousLocalTime);
            },
            DstResolution::Earlier => outside::earlier_instant(name, data, date, time),
            DstResolution::Later => outside::later_instant(name, data, date, time),
        },
        LocalOffset::Unambiguous { .. } => outside::unambiguous_instant(name, data, date, time),
    };
    match instant {
        Some(nanos) => match UtcTimestamp::from_nanosecond(nanos) {
            Ok(timestamp) => Ok(timestamp),
            Err(_) => Err(CalendarError::ResolutionOutOfRange),
        },
        None => Err(CalendarError::ResolutionOutOfRange),
    }
}

/// Hands back an instant that is in the future.
pub fn require_future(candidate: UtcTimestamp, now: UtcTimestamp) -> (r: Result<
    UtcTimestamp,
    CalendarError,
>)
    ensures
        r == if candidate@ > now@ {
            Ok::<UtcTimestamp, CalendarError>(candidate)
        } else {
            Err(CalendarError::NotFuture)
        },
{
    if now.is_before(candidate) {
        Ok(candidate)
    } else {
        Err(CalendarError::NotFuture)
    }
}

} // verus!
