//! A naive (timezone-less) calendar date-time held as plain fields, and
//! its conversion to Unix epoch seconds under a fixed zero offset: the
//! date-time is treated as UTC regardless of the machine's time zone.

use vstd::prelude::*;

verus! {

/// A calendar date in the proleptic Gregorian calendar.
#[derive(Debug, Clone, Copy, PartialEq, Eq, Structural)]
pub struct CivilDate {
    pub year: i32,
    pub month: u8,
    pub day: u8,
}

/// A time of day with whole-second precision.
#[derive(Debug, Clone, Copy, PartialEq, Eq, Structural)]
pub struct CivilTime {
    pub hour: u8,
    pub minute: u8,
    pub second: u8,
}

/// A naive calendar date-time: a date and a time of day, no timezone.
#[derive(Debug, Clone, Copy, PartialEq, Eq, Structural)]
pub struct CivilDateTime {
    pub date: CivilDate,
    pub time: CivilTime,
}

/// Whether a year is a leap year in the proleptic Gregorian calendar.
pub open spec fn is_leap_year(y: int) -> bool {
    (y % 4 == 0 && y % 100 != 0) || y % 400 == 0
}

/// The number of days in a year.
pub open spec fn days_in_year(y: int) -> int {
    if is_leap_year(y) {
        366
    } else {
        365
    }
}

/// The number of days in a month (1 = January, ..., 12 = December).
pub open spec fn days_in_month(y: int, m: int) -> int {
    if m == 2 {
        if is_leap_year(y) {
            29
        } else {
            28
        }
    } else if m == 4 || m == 6 || m == 9 || m == 11 {
        30
    } else {
        31
    }
}

/// The number of days from 1970-01-01 to the first day of year `y`;
/// negative for years before 1970.
pub open spec fn days_before_year(y: int) -> int
    decreases (if y >= 1970 { y - 1970 } else { 1970 - y }),
{
    if y == 1970 {
        0
    } else if y > 1970 {
        days_before_year(y - 1) + days_in_year(y - 1)
    } else {
        days_before_year(y + 1) - days_in_year(y)
    }
}

/// The number of days from the first day of year `y` to the first day of
/// its month `m`.
pub open spec fn days_before_month(y: int, m: int) -> int
    decreases m,
{
    if m <= 1 {
        0
    } else {
        days_before_month(y, m - 1) + days_in_month(y, m - 1)
    }
}

impl CivilDate {
    /// A valid calendar date, in the year range a parsed date can take.
    pub open spec fn wf(self) -> bool {
        &&& -262143 <= self.year <= 262142
        &&& 1 <= self.month <= 12
        &&& 1 <= self.day <= days_in_month(self.year as int, self.month as int)
    }

    /// The date as a (year, month, day) triple.
    pub open spec fn as_tuple(self) -> (int, int, int) {
        (self.year as int, self.month as int, self.day as int)
    }

    /// The number of days from 1970-01-01 to this date; negative for
    /// earlier dates.
    pub open spec fn days_from_epoch(self) -> int {
        days_before_year(self.year as int) + days_before_month(self.year as int, self.month as int)
            + (self.day as int - 1)
    }
}

impl CivilTime {
    /// A valid time of day.
    pub open spec fn wf(self) -> bool {
        self.hour <= 23 && self.minute <= 59 && self.second <= 59
    }

    /// Midnight, the time combined with a date-only parse.
    pub open spec fn midnight() -> CivilTime {
        CivilTime { hour: 0, minute: 0, second: 0 }
    }

    /// The time as an (hour, minute, second) triple.
    pub open spec fn as_tuple(self) -> (int, int, int) {
        (self.hour as int, self.minute as int, self.second as int)
    }

    /// The number of seconds from midnight to this time.
    pub open spec fn seconds_from_midnight(self) -> int {
        self.hour as int * 3600 + self.minute as int * 60 + self.second as int
    }
}

/// The Unix epoch seconds of a naive date-time interpreted at offset
/// +00:00, i.e. as if it were UTC.
pub open spec fn epoch_of(dt: CivilDateTime) -> int {
    dt.date.days_from_epoch() * 86400 + dt.time.seconds_from_midnight()
}

/// Whether a year is a leap year.
fn leap_year(y: i32) -> (r: bool)
    ensures
        r == is_leap_year(y as int),
{
    let mag: u32 = if y >= 0 {
        y as u32
    } else {
        ((-(y + 1)) as u32) + 1
    };
    proof {
        assert(mag as int == (if y >= 0 { y as int } else { -(y as int) }));
        assert((mag as int % 4 == 0) == (y as int % 4 == 0));
        assert((mag as int % 100 == 0) == (y as int % 100 == 0));
        assert((mag as int % 400 == 0) == (y as int % 400 == 0));
    }
    (mag % 4 == 0 && mag % 100 != 0) || mag % 400 == 0
}

/// The number of days in a year.
fn year_days(y: i32) -> (r: u16)
    ensures
        r as int == days_in_year(y as int),
{
    if leap_year(y) {
        366
    } else {
        365
    }
}

/// The number of days in a month.
fn month_days(y: i32, m: u8) -> (r: u8)
    requires
        1 <= m <= 12,
    ensures
        r as int == days_in_month(y as int, m as int),
{
    if m == 2 {
        if leap_year(y) {
            29
        } else {
            28
        }
    } else if m == 4 || m == 6 || m == 9 || m == 11 {
        30
    } else {
        31
    }
}

impl CivilDate {
    /// Whether the fields form a valid calendar date.
    pub fn is_wf(&self) -> (r: bool)
        ensures
            r == self.wf(),
    {
        -262143 <= self.year && self.year <= 262142 && 1 <= self.month && self.month <= 12
            && 1 <= self.day && self.day <= month_days(self.year, self.month)
    }
}

impl CivilTime {
    /// Whether the fields form a valid time of day.
    pub fn is_wf(&self) -> (r: bool)
        ensures
            r == self.wf(),
    {
        self.hour <= 23 && self.minute <= 59 && self.second <= 59
    }
}

impl CivilDateTime {
    /// A valid naive date-time.
    pub open spec fn wf(self) -> bool {
        self.date.wf() && self.time.wf()
    }

    /// Whether the fields form a valid naive date-time.
    pub fn is_wf(&self) -> (r: bool)
        ensures
            r == self.wf(),
    {
        self.date.is_wf() && self.time.is_wf()
    }

    /// The date-time as a (year, month, day, hour, minute, second) tuple.
    pub open spec fn as_tuple6(self) -> (int, int, int, int, int, int) {
        (
            self.date.year as int,
            self.date.month as int,
            self.date.day as int,
            self.time.hour as int,
            self.time.minute as int,
            self.time.second as int,
        )
    }

    /// Combines a date with midnight, as a date-only parse does.
    pub fn from_date(date: CivilDate) -> (r: CivilDateTime)
        ensures
            r.date == date,
            r.time == CivilTime::midnight(),
    {
        CivilDateTime { date, time: CivilTime { hour: 0, minute: 0, second: 0 } }
    }

    /// The Unix epoch seconds of this date-time under the fixed zero
    /// offset: the naive value is read as UTC, whatever the machine's
    /// real local offset is.
    pub fn epoch_seconds(&self) -> (r: i64)
        requires
            self.wf(),
        ensures
            r == epoch_of(*self),
    {
        let year = self.date.year;
        let mut days: i64 = 0;
        if year >= 1970 {
            let mut y: i32 = 1970;
            while y < year
                invariant
                    1970 <= y <= year <= 262142,
                    days == days_before_year(y as int),
                    0 <= days <= 366 * (y - 1970),
                decreases year - y,
            {
                days = days + year_days(y) as i64;
                y = y + 1;
            }
        } else {
            let mut y: i32 = year;
            while y < 1970
                invariant
                    -262143 <= year <= y <= 1970,
                    days == days_before_year(year as int) - days_before_year(y as int),
                    -366 * (y - year) <= days <= 0,
                decreases 1970 - y,
            {
                proof {
                    assert(days_before_year(y as int) == days_before_year(y as int + 1)
                        - days_in_year(y as int));
                }
                days = days - year_days(y) as i64;
                y = y + 1;
            }
        }
        let mut m: u8 = 1;
        while m < self.date.month
            invariant
                1 <= m <= self.date.month <= 12,
                self.date.year == year,
                days == days_before_year(year as int) + days_before_month(year as int, m as int),
                -97_000_000 <= days <= 96_000_000 + 31 * (m - 1),
            decreases self.date.month - m,
        {
            days = days + month_days(year, m) as i64;
            m = m + 1;
        }
        let day_count: i64 = days + self.date.day as i64 - 1;
        day_count * 86400 + self.time.hour as i64 * 3600 + self.time.minute as i64 * 60
            + self.time.second as i64
    }
}

} // verus!
