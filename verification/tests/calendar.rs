use std::str::FromStr;

use atx::domain::calendar::{
    bundled_tzdb_version, resolve_calendar, resolve_calendar_at, CalendarError, TimeZoneSelection,
};
use atx::domain::calendar_syntax::{
    parse_calendar, parse_time, CalendarSyntax, CalendarSyntaxError,
};
use atx::domain::primitives::UtcTimestamp;
use atx::domain::schedule::DstResolution;

fn named(zone: &str) -> TimeZoneSelection {
    TimeZoneSelection::Named(zone.to_owned())
}

#[test]
fn time_only_rolls_over_at_exact_now() {
    let now = UtcTimestamp::from_str("2026-07-30T15:00:00Z").expect("valid timestamp");
    let resolved = resolve_calendar(
        "15:00",
        &TimeZoneSelection::Utc,
        DstResolution::Reject,
        false,
        now,
    )
    .expect("rollover should resolve");
    assert_eq!(resolved.resolved_utc().to_string(), "2026-07-31T15:00:00Z");

    assert!(resolve_calendar("15:00", &TimeZoneSelection::Utc, DstResolution::Reject, true, now)
        .is_err());
}

#[test]
fn new_york_gap_is_always_rejected() {
    let now = UtcTimestamp::from_str("2024-01-01T00:00:00Z").expect("valid timestamp");
    for policy in [DstResolution::Reject, DstResolution::Earlier, DstResolution::Later] {
        assert!(
            resolve_calendar("2024-03-10T02:30", &named("America/New_York"), policy, false, now)
                .is_err()
        );
    }
}

#[test]
fn new_york_fold_uses_explicit_choice() {
    let now = UtcTimestamp::from_str("2024-01-01T00:00:00Z").expect("valid timestamp");
    let earlier = resolve_calendar(
        "2024-11-03T01:30",
        &named("America/New_York"),
        DstResolution::Earlier,
        false,
        now,
    )
    .expect("earlier fold");
    let later = resolve_calendar(
        "2024-11-03T01:30",
        &named("America/New_York"),
        DstResolution::Later,
        false,
        now,
    )
    .expect("later fold");

    assert_eq!(earlier.resolved_utc().to_string(), "2024-11-03T05:30:00Z");
    assert_eq!(later.resolved_utc().to_string(), "2024-11-03T06:30:00Z");
}

#[test]
fn persisted_resolution_records_bundled_version() {
    let now = UtcTimestamp::from_str("2026-01-01T00:00:00Z").expect("valid timestamp");
    let resolved = resolve_calendar(
        "2026-08-01T09:30",
        &named("America/Sao_Paulo"),
        DstResolution::Reject,
        false,
        now,
    )
    .expect("calendar should resolve");

    assert_eq!(resolved.timezone_database_version(), bundled_tzdb_version());
    assert_ne!(resolved.timezone_database_version(), "unknown");
    assert_eq!(resolved.original_input(), "2026-08-01T09:30");
    assert_eq!(resolved.timezone(), "America/Sao_Paulo");
    assert_eq!(resolved.dst_resolution(), DstResolution::Reject);
}

#[test]
fn rejects_bad_zone_and_past_calendar_values() {
    let now = UtcTimestamp::from_str("2026-01-01T00:00:00Z").expect("valid timestamp");
    assert!(
        resolve_calendar("2027-01-01", &named("No/Such_Zone"), DstResolution::Reject, false, now)
            .is_err()
    );
    assert!(resolve_calendar(
        "2025-01-01",
        &TimeZoneSelection::Utc,
        DstResolution::Reject,
        false,
        now,
    )
    .is_err());
}

#[test]
fn rejects_malformed_timezone_selections() {
    let now = UtcTimestamp::from_str("2026-01-01T00:00:00Z").expect("valid timestamp");
    let over_cap = "A/".repeat(128);
    let past_cap = "A/".repeat(127) + "AB";
    let zones = [
        "",
        "America/N\u{e9}w_York",
        "America/New_York\0",
        over_cap.as_str(),
        past_cap.as_str(),
    ];
    for zone in zones {
        assert!(
            matches!(
                resolve_calendar(
                    "2027-01-01T09:30",
                    &named(zone),
                    DstResolution::Reject,
                    false,
                    now,
                ),
                Err(CalendarError::InvalidTimeZone)
            ),
            "{zone}"
        );
    }

    let at_cap = "A/".repeat(127) + "B";
    assert_eq!(at_cap.len(), 255);
    assert!(matches!(
        resolve_calendar(
            "2027-01-01T09:30",
            &TimeZoneSelection::Named(at_cap),
            DstResolution::Reject,
            false,
            now,
        ),
        Err(CalendarError::TimeZoneNotFound)
    ));
}

#[test]
fn parses_supported_shapes() {
    for input in ["15:30", "15:30:45", "2026-08-01", "2026-08-01 09:30", "2026-08-01T09:30:45"] {
        assert!(parse_calendar(input).is_ok(), "{input}");
    }
    assert!(matches!(parse_calendar("15:30"), Ok(CalendarSyntax::Time(_))));
}

#[test]
fn rejects_offsets_and_out_of_range_components() {
    for input in [
        "24:00",
        "12:60",
        "12345",
        "12345678",
        "12:34567",
        "12345:67",
        "2026/08-01",
        "2026-08/01",
        "2026-02-30",
        "2026-08-01X09:30",
        "2026-08-01T09:30Z",
        "2026-08-01T09:30+01:00",
        "tomorrow",
    ] {
        assert!(parse_calendar(input).is_err(), "{input}");
    }
}

#[test]
fn time_parser_checks_every_separator() {
    for input in ["12x34", "12x34:56", "12:34x56"] {
        assert!(parse_time(input).is_err(), "{input}");
    }
}

#[test]
fn every_syntax_error_has_an_input() {
    assert_eq!(parse_calendar("   "), Err(CalendarSyntaxError::Empty));
    assert_eq!(parse_calendar("1x:30"), Err(CalendarSyntaxError::InvalidNumber));
    assert_eq!(parse_calendar("2026-02-30"), Err(CalendarSyntaxError::InvalidDate));
    assert_eq!(parse_calendar("24:00"), Err(CalendarSyntaxError::InvalidTime));
    assert_eq!(parse_calendar("tomorrow"), Err(CalendarSyntaxError::InvalidDateTime));
    assert_eq!(CalendarSyntaxError::InvalidDate.to_string(), "expected YYYY-MM-DD");
}

#[test]
fn every_calendar_error_has_an_input() {
    let now = UtcTimestamp::from_str("2024-01-01T12:00:00Z").expect("valid timestamp");
    let reject = DstResolution::Reject;
    let utc = TimeZoneSelection::Utc;
    let new_york = named("America/New_York");
    assert_eq!(
        resolve_calendar("2024-03-10T02:30", &new_york, reject, false, now),
        Err(CalendarError::NonexistentLocalTime)
    );
    assert_eq!(
        resolve_calendar("2024-11-03T01:30", &new_york, reject, false, now),
        Err(CalendarError::AmbiguousLocalTime)
    );
    assert_eq!(
        resolve_calendar("2024-01-01T12:00", &utc, reject, false, now),
        Err(CalendarError::NotFuture)
    );
    assert_eq!(
        resolve_calendar("12:00", &utc, reject, true, now),
        Err(CalendarError::RolloverDisabled)
    );
    assert_eq!(
        resolve_calendar("9999-12-31T23:59", &utc, reject, false, now),
        Err(CalendarError::ResolutionOutOfRange)
    );
    assert_eq!(
        resolve_calendar_at("12:00", &TimeZoneSelection::Local, reject, false, now, None),
        Err(CalendarError::LocalTimeZoneUnknown)
    );
    assert_eq!(
        resolve_calendar("", &utc, reject, false, now),
        Err(CalendarError::Syntax(CalendarSyntaxError::Empty))
    );
}

#[test]
fn a_local_zone_is_resolved_like_a_named_one() {
    let now = UtcTimestamp::from_str("2026-01-01T00:00:00Z").expect("valid timestamp");
    let local = resolve_calendar_at(
        "2026-08-01T09:30",
        &TimeZoneSelection::Local,
        DstResolution::Reject,
        false,
        now,
        Some("America/Sao_Paulo".to_owned()),
    )
    .expect("local zone");
    assert_eq!(local.resolved_utc().to_string(), "2026-08-01T12:30:00Z");
    assert_eq!(local.timezone(), "America/Sao_Paulo");
}

#[test]
fn accepted_resolutions_keep_the_wall_clock() {
    let now = UtcTimestamp::from_str("2026-01-01T00:00:00Z").expect("valid timestamp");
    for zone in ["UTC", "America/New_York", "Europe/Berlin", "Australia/Lord_Howe"] {
        for month in 1..=12 {
            for hour in [0, 1, 2, 3, 12, 23] {
                for policy in [DstResolution::Reject, DstResolution::Earlier, DstResolution::Later]
                {
                    let input = format!("2026-{month:02}-08T{hour:02}:15");
                    let Ok(resolution) =
                        resolve_calendar(&input, &named(zone), policy, false, now)
                    else {
                        continue;
                    };
                    let time_zone = jiff::tz::TimeZone::get(zone).expect("zone");
                    let instant =
                        jiff::Timestamp::from_str(&resolution.resolved_utc().to_string())
                            .expect("resolved timestamp");
                    assert_eq!(
                        instant.to_zoned(time_zone).datetime().to_string(),
                        format!("2026-{month:02}-08T{hour:02}:15:00")
                    );
                }
            }
        }
    }
}
