//! Dates and times as plain calendar fields, and their conversion to
//! Excel serial numbers.
//!
//! Excel stores a datetime as days counted from 1899-12-31 plus the
//! fraction of the day that has elapsed, and for compatibility it
//! treats 1900 as a leap year: every date after 1900-02-28 carries one
//! extra day.

use crate::number::Num;
use vstd::prelude::*;

verus! {

/// Whether `year` is a leap year in the Gregorian calendar.
pub open spec fn spec_is_leap_year(year: int) -> bool {
    (year % 4 == 0 && year % 100 != 0) || year % 400 == 0
}

/// The number of days in a month.
pub open spec fn spec_days_in_month(year: int, month: int) -> int {
    if month == 2 {
        if spec_is_leap_year(year) {
            29
        } else {
            28
        }
    } else if month == 4 || month == 6 || month == 9 || month == 11 {
        30
    } else {
        31
    }
}

/// The number of days in the years `1900 .. year`.
pub open spec fn spec_days_before_year(year: int) -> int
    decreases year,
{
    if year <= 1900 {
        0
    } else {
        spec_days_before_year(year - 1) + if spec_is_leap_year(year - 1) {
            366int
        } else {
            365int
        }
    }
}

/// The number of days in the months `1 .. month` of `year`.
pub open spec fn spec_days_before_month(year: int, month: int) -> int
    decreases month,
{
    if month <= 1 {
        0
    } else {
        spec_days_before_month(year, month - 1) + spec_days_in_month(year, month - 1)
    }
}

/// The day count from the 1899-12-31 epoch, before the leap-year quirk:
/// 1900-01-01 is day 1.
pub open spec fn spec_raw_serial(year: int, month: int, day: int) -> int {
    spec_days_before_year(year) + spec_days_before_month(year, month) + day
}

/// The Excel serial day of a date: the raw count, plus one extra day
/// after day 59 to reproduce Excel's spurious 1900-02-29.
pub open spec fn spec_date_serial(year: int, month: int, day: int) -> int {
    let raw = spec_raw_serial(year, month, day);
    if raw > 59 {
        raw + 1
    } else {
        raw
    }
}

/// The millisecond of the day.
pub open spec fn spec_millis_of_day(hour: int, minute: int, second: int, milli: int) -> int {
    ((hour * 60 + minute) * 60 + second) * 1000 + milli
}

/// A calendar date in the range Excel accepts.
#[derive(Clone, Copy, Debug, PartialEq, Eq, Structural)]
pub struct ExcelDate {
    /// The year, `1900 ..= 9999`.
    pub year: u16,
    /// The month, `1 ..= 12`.
    pub month: u8,
    /// The day of the month, `1 ..= spec_days_in_month`.
    pub day: u8,
}

/// A time of day.
#[derive(Clone, Copy, Debug, PartialEq, Eq, Structural)]
pub struct ExcelTime {
    /// The hour, `0 ..= 23`.
    pub hour: u8,
    /// The minute, `0 ..= 59`.
    pub minute: u8,
    /// The second, `0 ..= 59`.
    pub second: u8,
    /// The millisecond, `0 ..= 999`.
    pub milli: u16,
}

/// A date and a time of day.
#[derive(Clone, Copy, Debug, PartialEq, Eq, Structural)]
pub struct ExcelDateTime {
    /// The calendar date.
    pub date: ExcelDate,
    /// The time of day.
    pub time: ExcelTime,
}

impl ExcelDate {
    /// A valid calendar date.
    pub open spec fn wf(self) -> bool {
        1900 <= self.year <= 9999 && 1 <= self.month <= 12 && 1 <= self.day
            <= spec_days_in_month(self.year as int, self.month as int)
    }

    /// The date with the given fields, or `None` when they are not a
    /// valid calendar date in `1900 ..= 9999`.
    pub fn from_ymd(year: u16, month: u8, day: u8) -> (r: Option<ExcelDate>)
        ensures
            r is Some <==> (ExcelDate { year, month, day }).wf(),
            r is Some ==> r->0 == (ExcelDate { year, month, day }) && r->0.wf(),
    {
        if year < 1900 || year > 9999 || month < 1 || month > 12 {
            return None;
        }
        let leap = (year % 4 == 0 && year % 100 != 0) || year % 400 == 0;
        let dim: u8 = if month == 2 {
            if leap {
                29
            } else {
                28
            }
        } else if month == 4 || month == 6 || month == 9 || month == 11 {
            30
        } else {
            31
        };
        if day < 1 || day > dim {
            return None;
        }
        Some(ExcelDate { year, month, day })
    }
}

impl ExcelTime {
    /// A valid time of day.
    pub open spec fn wf(self) -> bool {
        self.hour <= 23 && self.minute <= 59 && self.second <= 59 && self.milli <= 999
    }

    /// The time with the given fields, or `None` when a field is out of
    /// range.
    pub fn from_hms_milli(hour: u8, minute: u8, second: u8, milli: u16) -> (r: Option<ExcelTime>)
        ensures
            r is Some <==> (ExcelTime { hour, minute, second, milli }).wf(),
            r is Some ==> r->0 == (ExcelTime { hour, minute, second, milli }),
    {
        if hour > 23 || minute > 59 || second > 59 || milli > 999 {
            None
        } else {
            Some(ExcelTime { hour, minute, second, milli })
        }
    }

    /// The millisecond of the day.
    pub fn millis_of_day(&self) -> (r: u32)
        requires
            self.wf(),
        ensures
            r == spec_millis_of_day(
                self.hour as int,
                self.minute as int,
                self.second as int,
                self.milli as int,
            ),
            r < 86_400_000,
    {
        ((self.hour as u32 * 60 + self.minute as u32) * 60 + self.second as u32) * 1000
            + self.milli as u32
    }
}

/// The day fraction of `millis` milliseconds, rounded to billionths.
pub open spec fn spec_time_billionths(millis: int) -> int {
    (millis * 1_000_000_000 + 43_200_000) / 86_400_000
}

/// Convert a millisecond of the day to billionths of a day.
pub fn time_to_billionths(millis: u32) -> (r: u32)
    requires
        millis < 86_400_000,
    ensures
        r == spec_time_billionths(millis as int),
        r < 1_000_000_000,
{
    let wide: u64 = (millis as u64 * 1_000_000_000 + 43_200_000) / 86_400_000;
    proof {
        assert(wide < 1_000_000_000) by (nonlinear_arith)
            requires
                millis < 86_400_000,
                wide == (millis as int * 1_000_000_000 + 43_200_000) / 86_400_000,
        ;
    }
    wide as u32
}

/// The number of days in the years `1900 .. year`.
fn days_before_year(year: u16) -> (r: u32)
    requires
        1900 <= year <= 9999,
    ensures
        r == spec_days_before_year(year as int),
        r <= 2_964_234,
{
    let mut y: u16 = 1900;
    let mut days: u32 = 0;
    while y < year
        invariant
            1900 <= y <= year <= 9999,
            days == spec_days_before_year(y as int),
            days <= 366 * (y - 1900),
        decreases year - y,
    {
        let leap = (y % 4 == 0 && y % 100 != 0) || y % 400 == 0;
        days = days + if leap {
            366
        } else {
            365
        };
        y = y + 1;
    }
    days
}

/// The number of days in the months `1 .. month` of `year`.
fn days_before_month(year: u16, month: u8) -> (r: u32)
    requires
        1 <= month <= 12,
    ensures
        r == spec_days_before_month(year as int, month as int),
        r <= 366,
{
    let mut m: u8 = 1;
    let mut days: u32 = 0;
    let leap = (year % 4 == 0 && year % 100 != 0) || year % 400 == 0;
    while m < month
        invariant
            1 <= m <= month <= 12,
            leap == spec_is_leap_year(year as int),
            days == spec_days_before_month(year as int, m as int),
            days <= 31 * (m - 1),
        decreases month - m,
    {
        let dim: u32 = if m == 2 {
            if leap {
                29
            } else {
                28
            }
        } else if m == 4 || m == 6 || m == 9 || m == 11 {
            30
        } else {
            31
        };
        days = days + dim;
        m = m + 1;
    }
    days
}

/// The Excel serial day of a date, with the 1900 leap-day quirk.
pub fn date_to_serial(date: &ExcelDate) -> (r: u32)
    requires
        date.wf(),
    ensures
        r == spec_date_serial(date.year as int, date.month as int, date.day as int),
{
    let raw: u32 = days_before_year(date.year) + days_before_month(date.year, date.month)
        + date.day as u32;
    if raw > 59 {
        raw + 1
    } else {
        raw
    }
}

/// The serial value of a date: a whole number of days.
pub fn date_to_excel(date: &ExcelDate) -> (r: Num)
    requires
        date.wf(),
    ensures
        r.wf(),
        r@ == spec_date_serial(date.year as int, date.month as int, date.day as int)
            * 1_000_000_000,
{
    let serial = date_to_serial(date);
    Num::from_parts(false, serial as u64, 0)
}

/// The serial value of a time of day: a fraction in `[0, 1)`.
pub fn time_to_excel(time: &ExcelTime) -> (r: Num)
    requires
        time.wf(),
    ensures
        r.wf(),
        r@ == spec_time_billionths(
            spec_millis_of_day(
                time.hour as int,
                time.minute as int,
                time.second as int,
                time.milli as int,
            ),
        ),
{
    let millis = time.millis_of_day();
    let billionths = time_to_billionths(millis);
    Num::from_parts(false, 0, billionths)
}

/// The serial value of a datetime: serial day plus day fraction.
pub fn datetime_to_excel(datetime: &ExcelDateTime) -> (r: Num)
    requires
        datetime.date.wf(),
        datetime.time.wf(),
    ensures
        r.wf(),
        r@ == spec_date_serial(
            datetime.date.year as int,
            datetime.date.month as int,
            datetime.date.day as int,
        ) * 1_000_000_000 + spec_time_billionths(
            spec_millis_of_day(
                datetime.time.hour as int,
                datetime.time.minute as int,
                datetime.time.second as int,
                datetime.time.milli as int,
            ),
        ),
{
    let serial = date_to_serial(&datetime.date);
    let millis = datetime.time.millis_of_day();
    let billionths = time_to_billionths(millis);
    Num::from_parts(false, serial as u64, billionths)
}

/// The 1900 leap-day quirk, stated on the two days around it:
/// 1900-02-28 is serial 59 and 1900-03-01 is serial 61, so serial 60
/// is Excel's spurious 1900-02-29.
pub proof fn lemma_leap_day_skip()
    ensures
        spec_date_serial(1900, 2, 28) == 59,
        spec_date_serial(1900, 3, 1) == 61,
{
    reveal_with_fuel(spec_days_before_month, 4);
    assert(spec_days_before_year(1900) == 0);
    assert(spec_days_before_month(1900, 2) == 31);
    assert(spec_days_before_month(1900, 3) == 59);
}

} // verus!
