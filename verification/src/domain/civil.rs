//! Civil dates and times of the proleptic Gregorian calendar.
use vstd::prelude::*;

use crate::outside;

verus! {

// ---------------------------------------------------------------------------------------------
// Calendar arithmetic
// ---------------------------------------------------------------------------------------------
/// `year` has a 29th of February.
pub open spec fn is_leap_year(year: int) -> bool {
    year % 4 == 0 && (year % 100 != 0 || year % 400 == 0)
}

/// The number of days of a month.
pub open spec fn days_in_month(year: int, month: int) -> int {
    if month == 2 {
        if is_leap_year(year) {
            29
        } else {
            28
        }
    } else if month == 4 || month == 6 || month == 9 || month == 11 {
        30
    } else {
        31
    }
}

/// The three numbers name a day between the years -9999 and 9999.
pub open spec fn valid_date(year: int, month: int, day: int) -> bool {
    &&& -9999 <= year <= 9999
    &&& 1 <= month <= 12
    &&& 1 <= day <= days_in_month(year, month)
}

/// The three numbers name a second of a day.
pub open spec fn valid_time(hour: int, minute: int, second: int) -> bool {
    &&& 0 <= hour <= 23
    &&& 0 <= minute <= 59
    &&& 0 <= second <= 59
}

/// The day after a date; `None` after the last supported day.
pub open spec fn next_date(year: int, month: int, day: int) -> Option<(int, int, int)> {
    if day < days_in_month(year, month) {
        Some((year, month, day + 1))
    } else if month < 12 {
        Some((year, month + 1, 1))
    } else if year < 9999 {
        Some((year + 1, 1, 1))
    } else {
        None
    }
}

/// The number of days from 1970-01-01 to a date. Years are counted from March, so that the leap
/// day is the last day of a year, and in eras of 400 years.
pub open spec fn epoch_day(year: int, month: int, day: int) -> int {
    let shifted = if month <= 2 {
        year - 1
    } else {
        year
    };
    let era = shifted / 400;
    let year_of_era = shifted % 400;
    let month_from_march = (month + 9) % 12;
    let day_of_year = (153 * month_from_march + 2) / 5 + day - 1;
    let day_of_era = year_of_era * 365 + year_of_era / 4 - year_of_era / 100 + day_of_year;
    era * 146097 + day_of_era - 719468
}

/// Days are numbered from the first of January 1970, one more for each following day.
pub proof fn lemma_epoch_day_counts_days(year: int, month: int, day: int)
    requires
        valid_date(year, month, day),
    ensures
        epoch_day(1970, 1, 1) == 0,
        next_date(year, month, day) matches Some(next) ==> {
            &&& valid_date(next.0, next.1, next.2)
            &&& epoch_day(next.0, next.1, next.2) == epoch_day(year, month, day) + 1
        },
{
    if day == days_in_month(year, month) {
        assert(month == 1 || month == 2 || month == 3 || month == 4 || month == 5 || month == 6
            || month == 7 || month == 8 || month == 9 || month == 10 || month == 11 || month == 12);
    }
}

// ---------------------------------------------------------------------------------------------
// Types
// ---------------------------------------------------------------------------------------------
/// A calendar day.
#[derive(Clone, Copy, Debug, PartialEq, Eq, Structural)]
pub struct CivilDate {
    year: i16,
    month: i8,
    day: i8,
}

/// A time of day, to the second.
#[derive(Clone, Copy, Debug, PartialEq, Eq, Structural)]
pub struct CivilTime {
    hour: i8,
    minute: i8,
    second: i8,
}

/// A calendar day with a time of day.
#[derive(Clone, Copy, Debug, PartialEq, Eq, Structural)]
pub struct CivilDateTime {
    pub date: CivilDate,
    pub time: CivilTime,
}

impl CivilDate {
    #[verifier::type_invariant]
    spec fn wf(self) -> bool {
        valid_date(self.year as int, self.month as int, self.day as int)
    }

    pub closed spec fn spec_year(self) -> int {
        self.year as int
    }

    pub closed spec fn spec_month(self) -> int {
        self.month as int
    }

    pub closed spec fn spec_day(self) -> int {
        self.day as int
    }

    /// The date has these components.
    pub open spec fn is(self, year: int, month: int, day: int) -> bool {
        self.spec_year() == year && self.spec_month() == month && self.spec_day() == day
    }

    /// The number of days since 1970-01-01.
    pub open spec fn number(self) -> int {
        epoch_day(self.spec_year(), self.spec_month(), self.spec_day())
    }

    /// The date with the given components, if there is such a day.
    pub fn new(year: i16, month: i8, day: i8) -> (r: Option<CivilDate>)
        ensures
            match r {
                Some(date) => valid_date(year as int, month as int, day as int) && date.is(
                    year as int,
                    month as int,
                    day as int,
                ),
                None => !valid_date(year as int, month as int, day as int),
            },
    {
        if outside::date_exists(year, month, day) {
            Some(CivilDate { year, month, day })
        } else {
            None
        }
    }

    /// Year, month and day.
    pub fn components(&self) -> (r: (i16, i8, i8))
        ensures
            self.is(r.0 as int, r.1 as int, r.2 as int),
            valid_date(r.0 as int, r.1 as int, r.2 as int),
    {
        proof {
            use_type_invariant(self);
        }
        (self.year, self.month, self.day)
    }

    /// The day after this one; `None` after the last supported day.
    pub fn tomorrow(&self) -> (r: Option<CivilDate>)
        ensures
            match next_date(self.spec_year(), self.spec_month(), self.spec_day()) {
                Some(next) => r matches Some(date) && date.is(next.0, next.1, next.2),
                None => r is None,
            },
    {
        proof {
            use_type_invariant(self);
            lemma_epoch_day_counts_days(self.year as int, self.month as int, self.day as int);
        }
        match outside::date_tomorrow(self.year, self.month, self.day) {
            Some((year, month, day)) => Some(CivilDate { year, month, day }),
            None => None,
        }
    }
}

impl CivilTime {
    #[verifier::type_invariant]
    spec fn wf(self) -> bool {
        valid_time(self.hour as int, self.minute as int, self.second as int)
    }

    pub closed spec fn spec_hour(self) -> int {
        self.hour as int
    }

    pub closed spec fn spec_minute(self) -> int {
        self.minute as int
    }

    pub closed spec fn spec_second(self) -> int {
        self.second as int
    }

    /// The time has these components.
    pub open spec fn is(self, hour: int, minute: int, second: int) -> bool {
        self.spec_hour() == hour && self.spec_minute() == minute && self.spec_second() == second
    }

    /// The number of seconds since midnight.
    pub open spec fn number(self) -> int {
        self.spec_hour() * 3600 + self.spec_minute() * 60 + self.spec_second()
    }

    /// The time with the given components, if there is such a time.
    pub fn new(hour: i8, minute: i8, second: i8) -> (r: Option<CivilTime>)
        ensures
            match r {
                Some(time) => valid_time(hour as int, minute as int, second as int) && time.is(
                    hour as int,
                    minute as int,
                    second as int,
                ),
                None => !valid_time(hour as int, minute as int, second as int),
            },
    {
        if outside::time_exists(hour, minute, second) {
            Some(CivilTime { hour, minute, second })
        } else {
            None
        }
    }

    /// The first second of a day.
    pub fn midnight() -> (r: CivilTime)
        ensures
            r.is(0, 0, 0),
    {
        CivilTime { hour: 0, minute: 0, second: 0 }
    }

    /// Hour, minute and second.
    pub fn components(&self) -> (r: (i8, i8, i8))
        ensures
            self.is(r.0 as int, r.1 as int, r.2 as int),
            valid_time(r.0 as int, r.1 as int, r.2 as int),
    {
        proof {
            use_type_invariant(self);
        }
        (self.hour, self.minute, self.second)
    }
}

impl CivilDateTime {
    /// The number of seconds from 1970-01-01 00:00:00 on the same clock.
    pub open spec fn seconds(self) -> int {
        self.date.number() * 86400 + self.time.number()
    }
}

} // verus!
