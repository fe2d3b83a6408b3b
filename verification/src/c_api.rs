//! The conversion to a Gregorian day for callers that take a flat record in
//! place of a `Result`, and that may have no designator to give.

use crate::convert::{from_wareki_spec, WarekiError};
use crate::date::GregorianDate;
use vstd::prelude::*;

verus! {

/// A Gregorian day and a flag. Where the flag is set the record holds no
/// day, and its year, month and day are 0.
#[derive(Debug, Clone, Copy, PartialEq, Eq, Structural)]
pub struct CGregorianDate {
    pub year: i32,
    pub month: u32,
    pub day: u32,
    pub is_error: bool,
}

impl CGregorianDate {
    /// The record that holds no day.
    pub open spec fn failure() -> CGregorianDate {
        CGregorianDate { year: 0, month: 0, day: 0, is_error: true }
    }

    /// The record of a result: the day where there is one, and
    /// [`CGregorianDate::failure`] for every error.
    pub open spec fn of(result: Result<GregorianDate, WarekiError>) -> CGregorianDate {
        match result {
            Ok(date) => CGregorianDate {
                year: date.year,
                month: date.month,
                day: date.day,
                is_error: false,
            },
            Err(_) => CGregorianDate::failure(),
        }
    }
}

/// Converts a month and day in a year of an era to the Gregorian day, as a
/// flat record. Without a designator, and on every error of
/// [`crate::from_wareki`], the record is [`CGregorianDate::failure`].
pub fn from_wareki(era_name: Option<&str>, year: u32, month: u32, day: u32) -> (record: CGregorianDate)
    ensures
        record == match era_name {
            Some(text) => CGregorianDate::of(from_wareki_spec(text@, year, month, day)),
            None => CGregorianDate::failure(),
        },
{
    let text: &str = match era_name {
        Some(text) => text,
        None => {
            return CGregorianDate { year: 0, month: 0, day: 0, is_error: true };
        },
    };
    match crate::convert::from_wareki(text, year, month, day) {
        Ok(date) => CGregorianDate {
            year: date.year,
            month: date.month,
            day: date.day,
            is_error: false,
        },
        Err(_) => CGregorianDate { year: 0, month: 0, day: 0, is_error: true },
    }
}

} // verus!
