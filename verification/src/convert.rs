//! The two conversions: from a Gregorian day to its era and era year, and
//! from an era designator, an era year, a month and a day back to the
//! Gregorian day.

use crate::date::{calendar_date, is_calendar_date, GregorianDate};
use crate::era::{earliest_start, era_table, eras, rows, Era, EraData};
use crate::lookup::{era_named, era_on, find_era_named, find_era_on};
use crate::laws::lemma_to_wareki_range;
use crate::table_laws::lemma_era_table_well_formed;
use vstd::prelude::*;

verus! {

/// Why a conversion was refused.
#[derive(Debug, Clone, Copy, PartialEq, Eq, Structural)]
pub enum WarekiError {
    /// The year, month and day name no day of the calendar.
    InvalidGregorianDate,
    /// The day lies before the start of the oldest era of the table.
    DateOutOfRange,
    /// The era year is 0; era years count from 1.
    InvalidEraYear,
    /// The designator names no era of the table.
    UnknownEra,
    /// The day lies before the first day of the era that was named.
    DateBeforeEraStart,
    /// The day lies on or after the first day of the era that followed.
    DateAfterEraEnd,
}

impl WarekiError {
    /// The sentence that describes the error.
    pub open spec fn message_text(self) -> Seq<char> {
        match self {
            WarekiError::InvalidGregorianDate => "Invalid gregorian date"@,
            WarekiError::DateOutOfRange => "Date is out of supported range (before Meiji)"@,
            WarekiError::InvalidEraYear => "Year must be greater than 0"@,
            WarekiError::UnknownEra => "Unknown era"@,
            WarekiError::DateBeforeEraStart => "Date is before the start of the era"@,
            WarekiError::DateAfterEraEnd => "Date is after the end of the era"@,
        }
    }

    /// The sentence that describes the error.
    pub fn message(&self) -> (text: &'static str)
        ensures
            text@ == self.message_text(),
    {
        match self {
            WarekiError::InvalidGregorianDate => "Invalid gregorian date",
            WarekiError::DateOutOfRange => "Date is out of supported range (before Meiji)",
            WarekiError::InvalidEraYear => "Year must be greater than 0",
            WarekiError::UnknownEra => "Unknown era",
            WarekiError::DateBeforeEraStart => "Date is before the start of the era",
            WarekiError::DateAfterEraEnd => "Date is after the end of the era",
        }
    }
}

/// A year of an era: the era, its full name, and the year counted from 1.
#[derive(Debug, Clone, Copy, PartialEq, Eq)]
pub struct Wareki {
    pub era: Era,
    pub era_name: &'static str,
    pub year: u32,
}

/// What a [`Wareki`] says, with the name as a sequence of characters.
pub struct WarekiView {
    pub era: Era,
    pub era_name: Seq<char>,
    pub year: int,
}

impl View for Wareki {
    type V = WarekiView;

    open spec fn view(&self) -> WarekiView {
        WarekiView { era: self.era, era_name: self.era_name@, year: self.year as int }
    }
}

impl Wareki {
    /// The full name of the era.
    pub fn era_name(&self) -> (name: &'static str)
        ensures
            name@ == self@.era_name,
    {
        self.era_name
    }
}

/// The era and era year of a Gregorian day.
///
/// A triple that names no day of the calendar is an
/// [`WarekiError::InvalidGregorianDate`]. A day before the oldest era is a
/// [`WarekiError::DateOutOfRange`]. Any other day falls in the newest era
/// that had begun on it, and its era year is 1 in the Gregorian year in which
/// the era began and one more in each Gregorian year after that: the count
/// steps on the first of January, not on the day of the year on which the
/// era began.
pub open spec fn to_wareki_spec(year: i32, month: u32, day: u32) -> Result<WarekiView, WarekiError> {
    let table = era_table();
    let date = GregorianDate { year, month, day };
    if !date.is_valid() {
        Err(WarekiError::InvalidGregorianDate)
    } else {
        match era_on(table, date) {
            None => Err(WarekiError::DateOutOfRange),
            Some(i) => Ok(
                WarekiView {
                    era: table[i].era,
                    era_name: table[i].name,
                    year: year - table[i].start_date.year + 1,
                },
            ),
        }
    }
}

/// The Gregorian day of a month and day in a year of an era.
///
/// The conditions are tried in this order. An era year of 0 is an
/// [`WarekiError::InvalidEraYear`]. A designator that names no era is an
/// [`WarekiError::UnknownEra`]. The Gregorian year is the year in which the
/// era began, plus the era year, less 1; if that year, the month and the day
/// name no day of the calendar, the error is
/// [`WarekiError::InvalidGregorianDate`]. A day before the first day of the
/// era is a [`WarekiError::DateBeforeEraStart`]. A day on or after the first
/// day of the era that followed, which is the row above in the table, is a
/// [`WarekiError::DateAfterEraEnd`]; the newest era has no such bound.
pub open spec fn from_wareki_spec(designator: Seq<char>, era_year: u32, month: u32, day: u32) -> Result<
    GregorianDate,
    WarekiError,
> {
    let table = era_table();
    if era_year == 0 {
        Err(WarekiError::InvalidEraYear)
    } else {
        match era_named(table, designator) {
            None => Err(WarekiError::UnknownEra),
            Some(i) => {
                let year = table[i].start_date.year + era_year - 1;
                if !is_calendar_date(year, month as int, day as int) {
                    Err(WarekiError::InvalidGregorianDate)
                } else {
                    let date = GregorianDate { year: year as i32, month, day };
                    if date.precedes(table[i].start_date) {
                        Err(WarekiError::DateBeforeEraStart)
                    } else if i > 0 && !date.precedes(table[i - 1].start_date) {
                        Err(WarekiError::DateAfterEraEnd)
                    } else {
                        Ok(date)
                    }
                }
            },
        }
    }
}

/// Converts a Gregorian day to its era and era year.
pub fn to_wareki(year: i32, month: u32, day: u32) -> (result: Result<Wareki, WarekiError>)
    ensures
        match to_wareki_spec(year, month, day) {
            Ok(w) => result is Ok && result->Ok_0@ == w,
            Err(e) => result == Err::<Wareki, WarekiError>(e),
        },
        result is Ok <==> (GregorianDate { year, month, day }).is_valid() && !(GregorianDate {
            year,
            month,
            day,
        }).precedes(earliest_start()),
{
    proof {
        lemma_to_wareki_range(year, month, day);
    }
    let date = match calendar_date(year, month, day) {
        Some(date) => date,
        None => {
            return Err(WarekiError::InvalidGregorianDate);
        },
    };
    let table = eras();
    proof {
        lemma_era_table_well_formed();
    }
    match find_era_on(&table, &date) {
        None => Err(WarekiError::DateOutOfRange),
        Some(i) => {
            let row: EraData = table[i];
            assert(rows(table@)[i as int] == row@);
            assert(row@.has_begun_on(date));
            let era_year: u32 = (year - row.start_date.year + 1) as u32;
            Ok(Wareki { era: row.era, era_name: row.name, year: era_year })
        },
    }
}

/// Converts a month and day in a year of an era to the Gregorian day.
///
/// The designator is the full name of the era, its short name, or its Latin
/// code in either case.
pub fn from_wareki(era_str: &str, year: u32, month: u32, day: u32) -> (result: Result<
    GregorianDate,
    WarekiError,
>)
    ensures
        result == from_wareki_spec(era_str@, year, month, day),
        result matches Ok(date) ==> date.is_valid() && date.month == month && date.day == day,
{
    if year == 0 {
        return Err(WarekiError::InvalidEraYear);
    }
    let table = eras();
    proof {
        lemma_era_table_well_formed();
    }
    let i: usize = match find_era_named(&table, era_str) {
        Some(i) => i,
        None => {
            return Err(WarekiError::UnknownEra);
        },
    };
    let row: EraData = table[i];
    assert(rows(table@)[i as int] == row@);
    let gregorian_year: i64 = row.start_date.year as i64 + year as i64 - 1;
    if gregorian_year > i32::MAX as i64 {
        return Err(WarekiError::InvalidGregorianDate);
    }
    let date = match calendar_date(gregorian_year as i32, month, day) {
        Some(date) => date,
        None => {
            return Err(WarekiError::InvalidGregorianDate);
        },
    };
    if date.is_before(&row.start_date) {
        return Err(WarekiError::DateBeforeEraStart);
    }
    if i > 0 {
        let next: EraData = table[i - 1];
        assert(rows(table@)[i as int - 1] == next@);
        if !date.is_before(&next.start_date) {
            return Err(WarekiError::DateAfterEraEnd);
        }
    }
    Ok(date)
}

} // verus!
