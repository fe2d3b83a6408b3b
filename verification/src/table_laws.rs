//! What holds of the era table itself.

use crate::era::{era_table, Era};
use crate::lookup::table_well_formed;
use vstd::prelude::*;

verus! {

/// The character by which a designator of `era` begins is one of three: the
/// first of its full name, which is its short name, or its Latin code in
/// either case.
pub open spec fn begins_as(era: Era, c: char) -> bool {
    match era {
        Era::Reiwa => c == '令' || c == 'R' || c == 'r',
        Era::Heisei => c == '平' || c == 'H' || c == 'h',
        Era::Showa => c == '昭' || c == 'S' || c == 's',
        Era::Taisho => c == '大' || c == 'T' || c == 't',
        Era::Meiji => c == '明' || c == 'M' || c == 'm',
    }
}

/// A text that designates a row of the era table is not empty and begins
/// with one of the three characters of that row's era.
pub proof fn lemma_designator_begins(i: int, text: Seq<char>)
    requires
        0 <= i < era_table().len(),
        era_table()[i].is_designated_by(text),
    ensures
        text.len() > 0,
        begins_as(era_table()[i].era, text[0]),
{
    reveal_strlit("令和");
    reveal_strlit("令");
    reveal_strlit("R");
    reveal_strlit("平成");
    reveal_strlit("平");
    reveal_strlit("H");
    reveal_strlit("昭和");
    reveal_strlit("昭");
    reveal_strlit("S");
    reveal_strlit("大正");
    reveal_strlit("大");
    reveal_strlit("T");
    reveal_strlit("明治");
    reveal_strlit("明");
    reveal_strlit("M");
    let row = era_table()[i];
    if text != row.name && text != row.short_name {
        assert(text.len() == 1);
        assert(crate::designator::same_letter(row.romaji[0], text[0]));
    }
}

/// The era table has a row, each of its eras starts on a day of the
/// calendar, its rows run from the newest era to the oldest with no two
/// starting on one day, and no text designates two of its eras.
pub proof fn lemma_era_table_well_formed()
    ensures
        table_well_formed(era_table()),
{
    let table = era_table();
    assert(table.len() == 5);
    assert forall|i: int, j: int, text: Seq<char>|
        0 <= i < table.len() && 0 <= j < table.len() && i != j
            && #[trigger] table[i].is_designated_by(text) implies !#[trigger] table[j].is_designated_by(
        text,
    ) by {
        if table[j].is_designated_by(text) {
            lemma_designator_begins(i, text);
            lemma_designator_begins(j, text);
        }
    }
}

} // verus!
