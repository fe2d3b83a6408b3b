//! The laws that tie the two conversions together.
//!
//! Each is stated over [`to_wareki_spec`] and [`from_wareki_spec`], which are
//! what [`crate::to_wareki`] and [`crate::from_wareki`] are proved to compute.

use crate::convert::{from_wareki_spec, to_wareki_spec, WarekiError, WarekiView};
use crate::date::{lemma_day_before, GregorianDate};
use crate::era::{earliest_start, era_table};
use crate::lookup::{
    era_named, era_on, lemma_designator_resolves, lemma_era_interval, lemma_era_named_found,
    lemma_era_named_none, lemma_era_on_found, lemma_era_on_is, lemma_era_on_none,
    lemma_first_begun_exists, none_named,
};
use crate::table_laws::lemma_era_table_well_formed;
use vstd::prelude::*;

verus! {

/// A day of the calendar converts to an era exactly if it is not before the
/// start of the oldest era; before that start the conversion is refused with
/// [`WarekiError::DateOutOfRange`], and with no other input is that the
/// error.
pub proof fn lemma_to_wareki_range(year: i32, month: u32, day: u32)
    ensures
        ({
            let date = GregorianDate { year, month, day };
            &&& to_wareki_spec(year, month, day) is Ok <==> date.is_valid() && !date.precedes(
                earliest_start(),
            )
            &&& to_wareki_spec(year, month, day) == Err::<WarekiView, WarekiError>(
                WarekiError::DateOutOfRange,
            ) <==> date.is_valid() && date.precedes(earliest_start())
            &&& to_wareki_spec(year, month, day) == Err::<WarekiView, WarekiError>(
                WarekiError::InvalidGregorianDate,
            ) <==> !date.is_valid()
        }),
{
    let table = era_table();
    let date = GregorianDate { year, month, day };
    let last = table.len() - 1;
    lemma_era_table_well_formed();
    if date.is_valid() {
        if date.precedes(earliest_start()) {
            assert forall|j: int| 0 <= j < table.len() implies !(#[trigger] table[j]).has_begun_on(
                date,
            ) by {
                if j < last {
                    assert(table[last].start_date.precedes(table[j].start_date));
                }
            }
            lemma_era_on_none(table, date);
        } else {
            let i = lemma_first_begun_exists(table, date, last);
            lemma_era_on_is(table, date, i);
        }
    }
}

/// Round trip: a day that converts to an era converts back, from the name of
/// that era, the era year, and its own month and day, to itself.
pub proof fn lemma_round_trip(year: i32, month: u32, day: u32)
    requires
        (GregorianDate { year, month, day }).is_valid(),
        !(GregorianDate { year, month, day }).precedes(earliest_start()),
    ensures
        to_wareki_spec(year, month, day) is Ok,
        ({
            let w = to_wareki_spec(year, month, day)->Ok_0;
            &&& 1 <= w.year <= u32::MAX
            &&& from_wareki_spec(w.era_name, w.year as u32, month, day) == Ok::<
                GregorianDate,
                WarekiError,
            >(GregorianDate { year, month, day })
        }),
{
    let table = era_table();
    let date = GregorianDate { year, month, day };
    lemma_era_table_well_formed();
    lemma_to_wareki_range(year, month, day);
    let i = era_on(table, date)->0;
    lemma_era_on_found(table, date, i);
    lemma_era_interval(table, date, i);
    lemma_designator_resolves(table, table[i].name, i);
}

/// The way back stays in the era that was named: where a designator, an era
/// year, a month and a day convert to a Gregorian day, that day is a day of
/// the calendar with the month and the day that were given, and it converts
/// to the era that the designator names and to the era year that was given.
pub proof fn lemma_from_wareki_stays_in_era(designator: Seq<char>, era_year: u32, month: u32, day: u32)
    requires
        from_wareki_spec(designator, era_year, month, day) is Ok,
    ensures
        era_named(era_table(), designator) is Some,
        ({
            let row = era_table()[era_named(era_table(), designator)->0];
            let date = from_wareki_spec(designator, era_year, month, day)->Ok_0;
            &&& date.is_valid()
            &&& date.month == month
            &&& date.day == day
            &&& to_wareki_spec(date.year, date.month, date.day) == Ok::<WarekiView, WarekiError>(
                WarekiView { era: row.era, era_name: row.name, year: era_year as int },
            )
        }),
{
    let table = era_table();
    lemma_era_table_well_formed();
    let i = era_named(table, designator)->0;
    lemma_era_named_found(table, designator, i);
    let date = from_wareki_spec(designator, era_year, month, day)->Ok_0;
    lemma_era_interval(table, date, i);
}

/// Every designator of an era stands for that era: two texts that designate
/// one row of the table, be it by the full name, the short name or the Latin
/// code in either case, give the same result with the same era year, month
/// and day.
pub proof fn lemma_designators_agree(
    i: int,
    first: Seq<char>,
    second: Seq<char>,
    era_year: u32,
    month: u32,
    day: u32,
)
    requires
        0 <= i < era_table().len(),
        era_table()[i].is_designated_by(first),
        era_table()[i].is_designated_by(second),
    ensures
        from_wareki_spec(first, era_year, month, day) == from_wareki_spec(
            second,
            era_year,
            month,
            day,
        ),
{
    lemma_era_table_well_formed();
    lemma_designator_resolves(era_table(), first, i);
    lemma_designator_resolves(era_table(), second, i);
}

/// A text that designates no row of the table is refused as
/// [`WarekiError::UnknownEra`], whatever the month and the day, unless the
/// era year is 0.
pub proof fn lemma_unknown_designator(designator: Seq<char>, era_year: u32, month: u32, day: u32)
    requires
        era_year != 0,
        none_named(era_table(), designator),
    ensures
        from_wareki_spec(designator, era_year, month, day) == Err::<GregorianDate, WarekiError>(
            WarekiError::UnknownEra,
        ),
{
    lemma_era_named_none(era_table(), designator);
}

/// The boundary between two eras is exact: the first day of an era that has
/// a predecessor is year 1 of that era, and the day before it falls in the
/// predecessor, which is another era.
pub proof fn lemma_era_boundary(i: int)
    requires
        0 <= i,
        i + 1 < era_table().len(),
    ensures
        ({
            let row = era_table()[i];
            let before = era_table()[i + 1];
            let first = row.start_date;
            let eve = first.day_before();
            &&& to_wareki_spec(first.year, first.month, first.day) == Ok::<WarekiView, WarekiError>(
                WarekiView { era: row.era, era_name: row.name, year: 1 },
            )
            &&& to_wareki_spec(eve.year, eve.month, eve.day) == Ok::<WarekiView, WarekiError>(
                WarekiView {
                    era: before.era,
                    era_name: before.name,
                    year: eve.year - before.start_date.year + 1,
                },
            )
            &&& before.era != row.era
        }),
{
    let table = era_table();
    lemma_era_table_well_formed();
    let first = table[i].start_date;
    let eve = first.day_before();
    assert(table[i + 1].start_date.precedes(table[i].start_date));
    lemma_day_before(first, table[i + 1].start_date);
    lemma_era_interval(table, first, i);
    if i > 0 {
        assert(table[i].start_date.precedes(table[i - 1].start_date));
    }
    lemma_era_interval(table, eve, i + 1);
    lemma_eras_differ(i, i + 1);
}

/// No era stands in two rows of the table.
pub proof fn lemma_eras_differ(i: int, j: int)
    requires
        0 <= i < era_table().len(),
        0 <= j < era_table().len(),
        i != j,
    ensures
        era_table()[i].era != era_table()[j].era,
{
}

/// The era year counts Gregorian years, not anniversaries of the start: two
/// days of one era lie as many era years apart as their Gregorian years, and
/// the era year is 1 in the Gregorian year in which the era began. So the
/// era year steps on every first of January, and on no other day.
pub proof fn lemma_era_year_counts_calendar_years(a: GregorianDate, b: GregorianDate)
    requires
        to_wareki_spec(a.year, a.month, a.day) is Ok,
        to_wareki_spec(b.year, b.month, b.day) is Ok,
        to_wareki_spec(a.year, a.month, a.day)->Ok_0.era == to_wareki_spec(
            b.year,
            b.month,
            b.day,
        )->Ok_0.era,
    ensures
        ({
            let wa = to_wareki_spec(a.year, a.month, a.day)->Ok_0;
            let wb = to_wareki_spec(b.year, b.month, b.day)->Ok_0;
            let row = era_table()[era_on(era_table(), a)->0];
            &&& wb.year - wa.year == b.year - a.year
            &&& wa.year == 1 <==> a.year == row.start_date.year
        }),
{
    let table = era_table();
    lemma_era_table_well_formed();
    let i = era_on(table, a)->0;
    let j = era_on(table, b)->0;
    lemma_era_on_found(table, a, i);
    lemma_era_on_found(table, b, j);
    if i != j {
        lemma_eras_differ(i, j);
    }
}

} // verus!
