//! The eras and the table that says when each one began.

use crate::date::GregorianDate;
use vstd::prelude::*;

verus! {

/// The eras that the table knows, oldest first.
#[derive(Debug, Clone, Copy, PartialEq, Eq, PartialOrd, Ord, Structural)]
pub enum Era {
    Meiji,
    Taisho,
    Showa,
    Heisei,
    Reiwa,
}

/// One row of the era table.
#[derive(Debug, Clone, Copy)]
pub struct EraData {
    pub era: Era,
    /// The full name, such as 令和.
    pub name: &'static str,
    /// The one-character short form, such as 令.
    pub short_name: &'static str,
    /// The Latin code, such as R.
    pub romaji: &'static str,
    /// The first day of the era.
    pub start_date: GregorianDate,
}

/// What a row of the era table says: its three names as sequences of
/// characters, and its first day.
pub struct EraEntry {
    pub era: Era,
    pub name: Seq<char>,
    pub short_name: Seq<char>,
    pub romaji: Seq<char>,
    pub start_date: GregorianDate,
}

impl View for EraData {
    type V = EraEntry;

    open spec fn view(&self) -> EraEntry {
        EraEntry {
            era: self.era,
            name: self.name@,
            short_name: self.short_name@,
            romaji: self.romaji@,
            start_date: self.start_date,
        }
    }
}

/// The rows of a table, each taken by its view.
pub open spec fn rows(table: Seq<EraData>) -> Seq<EraEntry> {
    Seq::new(table.len(), |i: int| table[i]@)
}

/// The era table, newest era first.
pub open spec fn era_table() -> Seq<EraEntry> {
    seq![
        EraEntry {
            era: Era::Reiwa,
            name: "令和"@,
            short_name: "令"@,
            romaji: "R"@,
            start_date: GregorianDate { year: 2019, month: 5, day: 1 },
        },
        EraEntry {
            era: Era::Heisei,
            name: "平成"@,
            short_name: "平"@,
            romaji: "H"@,
            start_date: GregorianDate { year: 1989, month: 1, day: 8 },
        },
        EraEntry {
            era: Era::Showa,
            name: "昭和"@,
            short_name: "昭"@,
            romaji: "S"@,
            start_date: GregorianDate { year: 1926, month: 12, day: 25 },
        },
        EraEntry {
            era: Era::Taisho,
            name: "大正"@,
            short_name: "大"@,
            romaji: "T"@,
            start_date: GregorianDate { year: 1912, month: 7, day: 30 },
        },
        EraEntry {
            era: Era::Meiji,
            name: "明治"@,
            short_name: "明"@,
            romaji: "M"@,
            start_date: GregorianDate { year: 1868, month: 1, day: 25 },
        },
    ]
}

/// The first day of the oldest era of the table.
pub open spec fn earliest_start() -> GregorianDate {
    era_table().last().start_date
}

/// The era table, newest era first.
pub fn eras() -> (table: Vec<EraData>)
    ensures
        rows(table@) == era_table(),
{
    let table = vec![
        EraData {
            era: Era::Reiwa,
            name: "令和",
            short_name: "令",
            romaji: "R",
            start_date: GregorianDate { year: 2019, month: 5, day: 1 },
        },
        EraData {
            era: Era::Heisei,
            name: "平成",
            short_name: "平",
            romaji: "H",
            start_date: GregorianDate { year: 1989, month: 1, day: 8 },
        },
        EraData {
            era: Era::Showa,
            name: "昭和",
            short_name: "昭",
            romaji: "S",
            start_date: GregorianDate { year: 1926, month: 12, day: 25 },
        },
        EraData {
            era: Era::Taisho,
            name: "大正",
            short_name: "大",
            romaji: "T",
            start_date: GregorianDate { year: 1912, month: 7, day: 30 },
        },
        EraData {
            era: Era::Meiji,
            name: "明治",
            short_name: "明",
            romaji: "M",
            start_date: GregorianDate { year: 1868, month: 1, day: 25 },
        },
    ];
    assert(rows(table@) =~= era_table());
    table
}

} // verus!
