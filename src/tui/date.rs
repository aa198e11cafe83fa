//! Calendar dates as day numbers of the proleptic Gregorian calendar.
//!
//! A date is held as the number of days since the start of the common era:
//! January 1 of year 1 is day 1 (a Monday). The calendar itself (months,
//! days of the month, leap years) is chrono's.

use chrono::{Datelike, NaiveDate};
use vstd::prelude::*;

verus! {

/// The day number of chrono's earliest date, January 1 of 262144 BCE.
pub const MIN_DAY: i32 = -95746129;

/// The day number of chrono's latest date, December 31 of 262142 CE.
pub const MAX_DAY: i32 = 95745399;

/// The month (1 to 12) of the date with the given day number.
pub uninterp spec fn month_of(days: int) -> int;

/// The day of the month (1 to 31) of the date with the given day number.
pub uninterp spec fn day_of_month(days: int) -> int;

/// The day number of a calendar date, when the calendar has it.
pub uninterp spec fn days_of_ymd(year: int, month: int, day: int) -> int;

/// chrono's earliest year.
pub const MIN_YEAR: i32 = -262143;

/// chrono's latest year.
pub const MAX_YEAR: i32 = 262142;

/// Whether a year of the proleptic Gregorian calendar is a leap year.
pub open spec fn is_leap_year(year: int) -> bool {
    (year % 4 == 0 && year % 100 != 0) || year % 400 == 0
}

/// The number of days of a month.
pub open spec fn days_in_month(year: int, month: int) -> int {
    if month == 2 {
        if is_leap_year(year) {
            29
        } else {
            28
        }
    } else if month == 4 || month == 6 || month == 9 || month == 11 {
        30
    } else {
        31
    }
}

/// Whether the calendar has the date, within chrono's years.
pub open spec fn valid_ymd(year: int, month: int, day: int) -> bool {
    &&& MIN_YEAR <= year <= MAX_YEAR
    &&& 1 <= month <= 12
    &&& 1 <= day <= days_in_month(year, month)
}

/// Whether a day number names a date that chrono can represent.
pub open spec fn in_range(days: int) -> bool {
    MIN_DAY <= days <= MAX_DAY
}

/// The weekday of a day number, counted from Sunday (0) to Saturday (6):
/// day 1 (January 1 of year 1) is a Monday.
pub open spec fn weekday(days: int) -> int {
    days % 7
}

/// A calendar date.
#[derive(Clone, Copy, Debug, PartialEq, Eq)]
pub struct Date {
    days: i32,
}

impl View for Date {
    type V = int;

    closed spec fn view(&self) -> int {
        self.days as int
    }
}

/// Relies on `NaiveDate::from_ymd_opt` and `Datelike::num_days_from_ce`: the day
/// number of a date that the calendar has, within chrono's years, and `None`
/// otherwise.
#[verifier::external_body]
fn days_from_ymd(year: i32, month: u32, day: u32) -> (r: Option<i32>)
    ensures
        r matches Some(n) ==> n as int == days_of_ymd(year as int, month as int, day as int),
        r matches Some(n) ==> in_range(n as int) && month_of(n as int) == month
            && day_of_month(n as int) == day,
        r is Some <==> valid_ymd(year as int, month as int, day as int),
{
    NaiveDate::from_ymd_opt(year, month, day).map(|d| d.num_days_from_ce())
}

/// Relies on `NaiveDate::from_num_days_from_ce_opt` and `Datelike::month`: the
/// month of a date, from 1 to 12.
#[verifier::external_body]
fn month_number(days: i32) -> (r: u32)
    requires
        in_range(days as int),
    ensures
        r as int == month_of(days as int),
        1 <= r <= 12,
{
    match NaiveDate::from_num_days_from_ce_opt(days) {
        Some(d) => d.month(),
        None => 1,
    }
}

/// Relies on `NaiveDate::from_num_days_from_ce_opt` and `Datelike::day`: the day
/// of the month of a date, from 1 to 31.
#[verifier::external_body]
fn day_number_in_month(days: i32) -> (r: u32)
    requires
        in_range(days as int),
    ensures
        r as int == day_of_month(days as int),
        1 <= r <= 31,
{
    match NaiveDate::from_num_days_from_ce_opt(days) {
        Some(d) => d.day(),
        None => 1,
    }
}

impl Date {
    /// Every date that chrono can represent.
    pub open spec fn wf(&self) -> bool {
        in_range(self@)
    }

    /// The date with the given year, month and day, if the calendar has it.
    pub fn from_ymd(year: i32, month: u32, day: u32) -> (r: Option<Date>)
        ensures
            r matches Some(d) ==> d@ == days_of_ymd(year as int, month as int, day as int),
            r matches Some(d) ==> d.wf() && month_of(d@) == month && day_of_month(d@) == day,
            r is Some <==> valid_ymd(year as int, month as int, day as int),
    {
        match days_from_ymd(year, month, day) {
            Some(n) => Some(Date { days: n }),
            None => None,
        }
    }

    /// The date with the given day number (January 1 of year 1 is day 1), if it
    /// lies in the representable range.
    pub fn from_day_number(days: i32) -> (r: Option<Date>)
        ensures
            r matches Some(d) ==> d@ == days as int,
            r is Some <==> in_range(days as int),
            r matches Some(d) ==> d.wf(),
    {
        if MIN_DAY <= days && days <= MAX_DAY {
            Some(Date { days })
        } else {
            None
        }
    }

    /// The day number of this date.
    pub fn day_number(&self) -> (r: i32)
        ensures
            r as int == self@,
    {
        self.days
    }

    /// The date `n` days later (earlier for a negative `n`).
    pub fn add_days(&self, n: i64) -> (r: Date)
        requires
            self.wf(),
            in_range(self@ + n),
        ensures
            r@ == self@ + n,
            r.wf(),
    {
        Date { days: (self.days as i64 + n) as i32 }
    }

    /// The weekday, counted from Sunday (0) to Saturday (6). Day 1 is a
    /// Monday, and weekdays repeat every seven days.
    pub fn weekday_from_sunday(&self) -> (r: u32)
        requires
            self.wf(),
        ensures
            r as int == weekday(self@),
            r < 7,
    {
        // Counted from the earliest day, which is a Thursday (4).
        let from_min = (self.days as i64 - MIN_DAY as i64) as u64;
        let r = ((from_min + 4) % 7) as u32;
        assert(MIN_DAY as int % 7 == 4);
        r
    }

    /// The month, from 1 to 12.
    pub fn month(&self) -> (r: u32)
        requires
            self.wf(),
        ensures
            r as int == month_of(self@),
            1 <= r <= 12,
    {
        month_number(self.days)
    }

    /// The day of the month, from 1 to 31.
    pub fn day(&self) -> (r: u32)
        requires
            self.wf(),
        ensures
            r as int == day_of_month(self@),
            1 <= r <= 31,
    {
        day_number_in_month(self.days)
    }
}

} // verus!
