//! Character-exact string comparison, plain and case-folding.
//!
//! The symbol tables and the field lookups of the marshaller match names
//! against fixed spellings.  The fold is the ASCII one: the table entries are
//! all ASCII, and a name containing anything else simply matches no entry.

use vstd::prelude::*;
use vstd::string::StrSliceExecFns;

verus! {

/// Maps a lower-case ASCII letter to its upper-case form; every other
/// character is unchanged.
pub open spec fn spec_upper_char(c: char) -> char {
    match c {
        'a' => 'A',
        'b' => 'B',
        'c' => 'C',
        'd' => 'D',
        'e' => 'E',
        'f' => 'F',
        'g' => 'G',
        'h' => 'H',
        'i' => 'I',
        'j' => 'J',
        'k' => 'K',
        'l' => 'L',
        'm' => 'M',
        'n' => 'N',
        'o' => 'O',
        'p' => 'P',
        'q' => 'Q',
        'r' => 'R',
        's' => 'S',
        't' => 'T',
        'u' => 'U',
        'v' => 'V',
        'w' => 'W',
        'x' => 'X',
        'y' => 'Y',
        'z' => 'Z',
        _ => c,
    }
}

/// A string folded to upper case, character by character.
pub open spec fn upper_chars(s: Seq<char>) -> Seq<char> {
    s.map_values(|c: char| spec_upper_char(c))
}

/// Folding is idempotent: an already folded string folds to itself.
pub proof fn lemma_upper_chars_idempotent(s: Seq<char>)
    ensures
        upper_chars(upper_chars(s)) == upper_chars(s),
{
    assert forall|c: char| spec_upper_char(spec_upper_char(c)) == spec_upper_char(c) by {
    }
    assert(upper_chars(upper_chars(s)) =~= upper_chars(s));
}

/// Upper-cases one character in the ASCII range.
pub fn ascii_upper_char(c: char) -> (r: char)
    ensures
        r == spec_upper_char(c),
{
    match c {
        'a' => 'A',
        'b' => 'B',
        'c' => 'C',
        'd' => 'D',
        'e' => 'E',
        'f' => 'F',
        'g' => 'G',
        'h' => 'H',
        'i' => 'I',
        'j' => 'J',
        'k' => 'K',
        'l' => 'L',
        'm' => 'M',
        'n' => 'N',
        'o' => 'O',
        'p' => 'P',
        'q' => 'Q',
        'r' => 'R',
        's' => 'S',
        't' => 'T',
        'u' => 'U',
        'v' => 'V',
        'w' => 'W',
        'x' => 'X',
        'y' => 'Y',
        'z' => 'Z',
        _ => c,
    }
}

/// True exactly when `s`, folded to upper case, reads as `t`.
///
/// `t` is meant to be an already upper-case table entry; the comparison walks
/// both strings character by character, so it is sound for any input.
pub fn upper_eq(s: &str, t: &str) -> (r: bool)
    ensures
        r == (upper_chars(s@) == t@),
{
    let n = s.unicode_len();
    if n != t.unicode_len() {
        assert(upper_chars(s@).len() != t@.len());
        return false;
    }
    let mut i: usize = 0;
    while i < n
        invariant
            n == s@.len(),
            n == t@.len(),
            i <= n,
            forall|j: int| 0 <= j < i ==> upper_chars(s@)[j] == t@[j],
        decreases n - i,
    {
        let c = s.get_char(i);
        let d = t.get_char(i);
        if ascii_upper_char(c) != d {
            assert(upper_chars(s@)[i as int] != t@[i as int]);
            return false;
        }
        i += 1;
    }
    assert(upper_chars(s@) =~= t@);
    true
}

/// True exactly when the two strings hold the same characters.
pub fn str_eq(s: &str, t: &str) -> (r: bool)
    ensures
        r == (s@ == t@),
{
    let n = s.unicode_len();
    if n != t.unicode_len() {
        return false;
    }
    let mut i: usize = 0;
    while i < n
        invariant
            n == s@.len(),
            n == t@.len(),
            i <= n,
            forall|j: int| 0 <= j < i ==> s@[j] == t@[j],
        decreases n - i,
    {
        if s.get_char(i) != t.get_char(i) {
            return false;
        }
        i += 1;
    }
    assert(s@ =~= t@);
    true
}

} // verus!
