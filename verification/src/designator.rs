//! Comparing an era designator with the names of an era.
//!
//! A designator is compared character by character. The full name and the
//! short name of an era must be met exactly; its Latin code is met by either
//! case of each ASCII letter.

use vstd::prelude::*;
use vstd::string::*;

verus! {

/// `c` is one of the ASCII capital letters.
pub open spec fn is_ascii_capital(c: char) -> bool {
    'A' <= c && c <= 'Z'
}

/// Two characters are the same, or the capital and the small form of one
/// ASCII letter.
pub open spec fn same_letter(a: char, b: char) -> bool {
    ||| a == b
    ||| is_ascii_capital(a) && b as int == a as int + 32
    ||| is_ascii_capital(b) && a as int == b as int + 32
}

/// Two texts have the same length and, place by place, the same letter in
/// the sense of [`same_letter`].
pub open spec fn same_ignoring_case(a: Seq<char>, b: Seq<char>) -> bool {
    &&& a.len() == b.len()
    &&& forall|i: int| 0 <= i < a.len() ==> same_letter(#[trigger] a[i], b[i])
}

/// Whether two characters are the same ASCII letter in either case, or equal.
pub fn is_same_letter(a: char, b: char) -> (same: bool)
    ensures
        same == same_letter(a, b),
{
    let x: u32 = a as u32;
    let y: u32 = b as u32;
    if x == y {
        true
    } else if 'A' <= a && a <= 'Z' {
        y == x + 32
    } else if 'A' <= b && b <= 'Z' {
        x == y + 32
    } else {
        false
    }
}

/// Whether two texts hold the same characters.
pub fn is_same_text(a: &str, b: &str) -> (same: bool)
    ensures
        same == (a@ == b@),
{
    let n: usize = a.unicode_len();
    if n != b.unicode_len() {
        return false;
    }
    let mut i: usize = 0;
    while i < n
        invariant
            i <= n,
            n == a@.len(),
            n == b@.len(),
            forall|j: int| 0 <= j < i ==> a@[j] == b@[j],
        decreases n - i,
    {
        if a.get_char(i) != b.get_char(i) {
            return false;
        }
        i += 1;
    }
    assert(a@ =~= b@);
    true
}

/// Whether two texts are the same once the case of ASCII letters is set aside.
pub fn is_same_ignoring_case(a: &str, b: &str) -> (same: bool)
    ensures
        same == same_ignoring_case(a@, b@),
{
    let n: usize = a.unicode_len();
    if n != b.unicode_len() {
        return false;
    }
    let mut i: usize = 0;
    while i < n
        invariant
            i <= n,
            n == a@.len(),
            n == b@.len(),
            forall|j: int| 0 <= j < i ==> same_letter(#[trigger] a@[j], b@[j]),
        decreases n - i,
    {
        if !is_same_letter(a.get_char(i), b.get_char(i)) {
            assert(!same_letter(a@[i as int], b@[i as int]));
            return false;
        }
        i += 1;
    }
    true
}

} // verus!
