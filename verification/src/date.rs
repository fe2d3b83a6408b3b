//! Gregorian calendar days: which triples of year, month and day exist, and
//! how two days are ordered.

use chrono::Datelike;
use vstd::prelude::*;

verus! {

/// The earliest year in which the calendar backend can place a day.
pub const MIN_YEAR: i32 = -262143;

/// The latest year in which the calendar backend can place a day.
pub const MAX_YEAR: i32 = 262142;

/// Whether `year` has a 29th of February under the Gregorian rule, extended
/// to every year before its adoption.
pub open spec fn is_leap_year(year: int) -> bool {
    year % 4 == 0 && (year % 100 != 0 || year % 400 == 0)
}

/// The number of days of `month` in `year`, for a month from 1 to 12.
pub open spec fn days_in_month(year: int, month: int) -> int {
    if month == 2 {
        if is_leap_year(year) {
            29
        } else {
            28
        }
    } else if month == 4 || month == 6 || month == 9 || month == 11 {
        30
    } else {
        31
    }
}

/// Whether the triple names a day that exists in the calendar and whose year
/// lies between [`MIN_YEAR`] and [`MAX_YEAR`].
pub open spec fn is_calendar_date(year: int, month: int, day: int) -> bool {
    &&& MIN_YEAR <= year <= MAX_YEAR
    &&& 1 <= month <= 12
    &&& 1 <= day <= days_in_month(year, month)
}

/// A day of the proleptic Gregorian calendar, held as year, month and day.
#[derive(Debug, Clone, Copy, PartialEq, Eq, Structural)]
pub struct GregorianDate {
    pub year: i32,
    pub month: u32,
    pub day: u32,
}

impl GregorianDate {
    /// The day exists in the calendar.
    pub open spec fn is_valid(self) -> bool {
        is_calendar_date(self.year as int, self.month as int, self.day as int)
    }

    /// `self` lies strictly earlier than `other`.
    pub open spec fn precedes(self, other: GregorianDate) -> bool {
        ||| self.year < other.year
        ||| self.year == other.year && self.month < other.month
        ||| self.year == other.year && self.month == other.month && self.day < other.day
    }

    /// The day just before `self`: the day of the month less one, or the last
    /// day of the month before, or the last day of the year before.
    pub open spec fn day_before(self) -> GregorianDate {
        if self.day > 1 {
            GregorianDate { year: self.year, month: self.month, day: (self.day - 1) as u32 }
        } else if self.month > 1 {
            GregorianDate {
                year: self.year,
                month: (self.month - 1) as u32,
                day: days_in_month(self.year as int, self.month - 1) as u32,
            }
        } else {
            GregorianDate { year: (self.year - 1) as i32, month: 12, day: 31 }
        }
    }

    /// Whether `self` lies strictly earlier than `other`.
    pub fn is_before(&self, other: &GregorianDate) -> (earlier: bool)
        ensures
            earlier == self.precedes(*other),
    {
        if self.year != other.year {
            self.year < other.year
        } else if self.month != other.month {
            self.month < other.month
        } else {
            self.day < other.day
        }
    }
}

/// Of two days, one precedes the other or they are the same day, and never
/// two of these at once; and a day that precedes a second, which precedes a
/// third, precedes the third.
pub proof fn lemma_days_are_ordered(a: GregorianDate, b: GregorianDate, c: GregorianDate)
    ensures
        a.precedes(b) || b.precedes(a) || a == b,
        !(a.precedes(b) && b.precedes(a)),
        !a.precedes(a),
        a.precedes(b) && b.precedes(c) ==> a.precedes(c),
{
}

/// The day before a day of the calendar is a day of the calendar that
/// precedes it, unless that would leave the years the calendar holds, and no
/// day of the calendar lies between the two.
pub proof fn lemma_day_before(date: GregorianDate, other: GregorianDate)
    requires
        date.is_valid(),
        other.is_valid(),
    ensures
        date.day_before().precedes(date),
        !(date.year == MIN_YEAR && date.month == 1 && date.day == 1) ==> date.day_before().is_valid(),
        other.precedes(date) ==> !date.day_before().precedes(other),
        other.precedes(date) ==> date.day_before().is_valid(),
{
}

/// Builds the day from its three parts through `chrono::NaiveDate::from_ymd_opt`
/// and reads the parts back with `Datelike::year`, `month` and `day`.
///
/// Trusted: chrono returns a date exactly when the year lies in its supported
/// span, the month is 1 to 12 and the day exists in that month of that year,
/// and the date it returns has the three parts it was given.
#[verifier::external_body]
pub(crate) fn calendar_date(year: i32, month: u32, day: u32) -> (found: Option<GregorianDate>)
    ensures
        found is Some <==> is_calendar_date(year as int, month as int, day as int),
        found is Some ==> found->0 == (GregorianDate { year, month, day }),
{
    match chrono::NaiveDate::from_ymd_opt(year, month, day) {
        Some(d) => Some(GregorianDate { year: d.year(), month: d.month(), day: d.day() }),
        None => None,
    }
}

} // verus!
