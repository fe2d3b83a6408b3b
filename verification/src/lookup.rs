//! Scanning an era table: for the era that a day falls in, and for the era
//! that a designator names.
//!
//! A table is read from its first row on and the first row that fits is
//! taken. With the newest era first, the first row whose start is not after a
//! day is the era of that day.

use crate::date::GregorianDate;
use crate::designator::{is_same_ignoring_case, is_same_text, same_ignoring_case};
use crate::era::{rows, EraData, EraEntry};
use vstd::prelude::*;

verus! {

impl EraEntry {
    /// `text` is the full name or the short name of the era, or its Latin
    /// code in either case.
    pub open spec fn is_designated_by(self, text: Seq<char>) -> bool {
        ||| text == self.name
        ||| text == self.short_name
        ||| same_ignoring_case(self.romaji, text)
    }

    /// The era had begun on `date`.
    pub open spec fn has_begun_on(self, date: GregorianDate) -> bool {
        !date.precedes(self.start_date)
    }
}

impl EraData {
    /// Whether `text` is the full name or the short name of the era, or its
    /// Latin code in either case.
    pub fn is_designated_by(&self, text: &str) -> (named: bool)
        ensures
            named == self@.is_designated_by(text@),
    {
        is_same_text(text, self.name) || is_same_text(text, self.short_name)
            || is_same_ignoring_case(self.romaji, text)
    }
}

/// What every era table must satisfy: it has a row; every start is a day of
/// the calendar; the rows run from the newest era to the oldest, no two of
/// them starting on one day; and no text designates two rows.
pub open spec fn table_well_formed(table: Seq<EraEntry>) -> bool {
    &&& table.len() > 0
    &&& forall|i: int| 0 <= i < table.len() ==> (#[trigger] table[i]).start_date.is_valid()
    &&& forall|i: int, j: int|
        0 <= i < j < table.len() ==> (#[trigger] table[j]).start_date.precedes(
            (#[trigger] table[i]).start_date,
        )
    &&& forall|i: int, j: int, text: Seq<char>|
        0 <= i < table.len() && 0 <= j < table.len() && i != j
            && #[trigger] table[i].is_designated_by(text) ==> !#[trigger] table[j].is_designated_by(
            text,
        )
}

/// Row `i` is the first row of `table` whose era had begun on `date`.
pub open spec fn is_first_begun(table: Seq<EraEntry>, date: GregorianDate, i: int) -> bool {
    &&& 0 <= i < table.len()
    &&& table[i].has_begun_on(date)
    &&& forall|j: int| 0 <= j < i ==> !(#[trigger] table[j]).has_begun_on(date)
}

/// No era of `table` had begun on `date`.
pub open spec fn none_begun(table: Seq<EraEntry>, date: GregorianDate) -> bool {
    forall|j: int| 0 <= j < table.len() ==> !(#[trigger] table[j]).has_begun_on(date)
}

/// The first row of `table` whose era had begun on `date`, if there is one.
pub open spec fn era_on(table: Seq<EraEntry>, date: GregorianDate) -> Option<int> {
    if exists|i: int| is_first_begun(table, date, i) {
        Some(choose|i: int| is_first_begun(table, date, i))
    } else {
        None
    }
}

/// Row `i` is the first row of `table` that `text` designates.
pub open spec fn is_first_named(table: Seq<EraEntry>, text: Seq<char>, i: int) -> bool {
    &&& 0 <= i < table.len()
    &&& table[i].is_designated_by(text)
    &&& forall|j: int| 0 <= j < i ==> !(#[trigger] table[j]).is_designated_by(text)
}

/// `text` designates no row of `table`.
pub open spec fn none_named(table: Seq<EraEntry>, text: Seq<char>) -> bool {
    forall|j: int| 0 <= j < table.len() ==> !(#[trigger] table[j]).is_designated_by(text)
}

/// The first row of `table` that `text` designates, if there is one.
pub open spec fn era_named(table: Seq<EraEntry>, text: Seq<char>) -> Option<int> {
    if exists|i: int| is_first_named(table, text, i) {
        Some(choose|i: int| is_first_named(table, text, i))
    } else {
        None
    }
}

/// A table has at most one first row whose era had begun on a day, so
/// [`era_on`] is that row.
pub proof fn lemma_era_on_is(table: Seq<EraEntry>, date: GregorianDate, i: int)
    requires
        is_first_begun(table, date, i),
    ensures
        era_on(table, date) == Some(i),
{
    let k = choose|k: int| is_first_begun(table, date, k);
    assert(is_first_begun(table, date, k));
    if k < i {
        assert(!table[k].has_begun_on(date));
    } else if i < k {
        assert(!table[i].has_begun_on(date));
    }
}

/// Where no era had begun on a day, [`era_on`] finds none.
pub proof fn lemma_era_on_none(table: Seq<EraEntry>, date: GregorianDate)
    requires
        none_begun(table, date),
    ensures
        era_on(table, date) is None,
{
    if exists|i: int| is_first_begun(table, date, i) {
        let k = choose|k: int| is_first_begun(table, date, k);
        assert(!table[k].has_begun_on(date));
    }
}

/// A table has at most one first row that a text designates, so
/// [`era_named`] is that row.
pub proof fn lemma_era_named_is(table: Seq<EraEntry>, text: Seq<char>, i: int)
    requires
        is_first_named(table, text, i),
    ensures
        era_named(table, text) == Some(i),
{
    let k = choose|k: int| is_first_named(table, text, k);
    assert(is_first_named(table, text, k));
    if k < i {
        assert(!table[k].is_designated_by(text));
    } else if i < k {
        assert(!table[i].is_designated_by(text));
    }
}

/// Where a text designates no row, [`era_named`] finds none.
pub proof fn lemma_era_named_none(table: Seq<EraEntry>, text: Seq<char>)
    requires
        none_named(table, text),
    ensures
        era_named(table, text) is None,
{
    if exists|i: int| is_first_named(table, text, i) {
        let k = choose|k: int| is_first_named(table, text, k);
        assert(!table[k].is_designated_by(text));
    }
}

/// Where [`era_on`] finds a row, that row is the first whose era had begun.
pub proof fn lemma_era_on_found(table: Seq<EraEntry>, date: GregorianDate, i: int)
    requires
        era_on(table, date) == Some(i),
    ensures
        is_first_begun(table, date, i),
{
}

/// Where [`era_named`] finds a row, that row is the first that the text
/// designates.
pub proof fn lemma_era_named_found(table: Seq<EraEntry>, text: Seq<char>, i: int)
    requires
        era_named(table, text) == Some(i),
    ensures
        is_first_named(table, text, i),
{
}

/// Where the era of row `k` had begun on a day, the table has a first row
/// whose era had begun on it, at `k` or above.
pub proof fn lemma_first_begun_exists(table: Seq<EraEntry>, date: GregorianDate, k: int) -> (i: int)
    requires
        0 <= k < table.len(),
        table[k].has_begun_on(date),
    ensures
        0 <= i <= k,
        is_first_begun(table, date, i),
    decreases k,
{
    if exists|j: int| 0 <= j < k && (#[trigger] table[j]).has_begun_on(date) {
        let j = choose|j: int| 0 <= j < k && (#[trigger] table[j]).has_begun_on(date);
        lemma_first_begun_exists(table, date, j)
    } else {
        k
    }
}

/// In a well-formed table the eras part the days from the oldest start on:
/// a day falls in row `i` exactly if it is not before the start of row `i`
/// and, where a row stands above it, before the start of that row.
pub proof fn lemma_era_interval(table: Seq<EraEntry>, date: GregorianDate, i: int)
    requires
        table_well_formed(table),
        0 <= i < table.len(),
    ensures
        era_on(table, date) == Some(i) <==> table[i].has_begun_on(date) && (i > 0 ==> date.precedes(
            table[i - 1].start_date,
        )),
{
    if era_on(table, date) == Some(i) {
        lemma_era_on_found(table, date, i);
        if i > 0 {
            assert(!table[i - 1].has_begun_on(date));
        }
    }
    if table[i].has_begun_on(date) && (i > 0 ==> date.precedes(table[i - 1].start_date)) {
        assert forall|j: int| 0 <= j < i implies !(#[trigger] table[j]).has_begun_on(date) by {
            if j < i - 1 {
                assert(table[i - 1].start_date.precedes(table[j].start_date));
            }
        }
        lemma_era_on_is(table, date, i);
    }
}

/// In a well-formed table a text that designates a row designates no other,
/// so [`era_named`] finds that row.
pub proof fn lemma_designator_resolves(table: Seq<EraEntry>, text: Seq<char>, i: int)
    requires
        table_well_formed(table),
        0 <= i < table.len(),
        table[i].is_designated_by(text),
    ensures
        era_named(table, text) == Some(i),
{
    lemma_era_named_is(table, text, i);
}

/// The index of the first row of `table` whose era had begun on `date`.
pub fn find_era_on(table: &Vec<EraData>, date: &GregorianDate) -> (found: Option<usize>)
    ensures
        found is Some ==> found->0 < table.len(),
        match found {
            Some(i) => era_on(rows(table@), *date) == Some(i as int),
            None => era_on(rows(table@), *date) is None,
        },
{
    let mut i: usize = 0;
    while i < table.len()
        invariant
            i <= table.len(),
            forall|j: int| 0 <= j < i ==> !(#[trigger] rows(table@)[j]).has_begun_on(*date),
        decreases table.len() - i,
    {
        if !date.is_before(&table[i].start_date) {
            proof {
                assert(rows(table@)[i as int] == table@[i as int]@);
                lemma_era_on_is(rows(table@), *date, i as int);
            }
            return Some(i);
        }
        assert(rows(table@)[i as int] == table@[i as int]@);
        i += 1;
    }
    proof {
        lemma_era_on_none(rows(table@), *date);
    }
    None
}

/// The index of the first row of `table` that `text` designates.
pub fn find_era_named(table: &Vec<EraData>, text: &str) -> (found: Option<usize>)
    ensures
        found is Some ==> found->0 < table.len(),
        match found {
            Some(i) => era_named(rows(table@), text@) == Some(i as int),
            None => era_named(rows(table@), text@) is None,
        },
{
    let mut i: usize = 0;
    while i < table.len()
        invariant
            i <= table.len(),
            forall|j: int| 0 <= j < i ==> !(#[trigger] rows(table@)[j]).is_designated_by(text@),
        decreases table.len() - i,
    {
        if table[i].is_designated_by(text) {
            proof {
                assert(rows(table@)[i as int] == table@[i as int]@);
                lemma_era_named_is(rows(table@), text@, i as int);
            }
            return Some(i);
        }
        assert(rows(table@)[i as int] == table@[i as int]@);
        i += 1;
    }
    proof {
        lemma_era_named_none(rows(table@), text@);
    }
    None
}

} // verus!
