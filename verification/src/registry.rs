//! Case-insensitive matching of symbolic key names, shared by the
//! parameter key registries.  Names are compared character by
//! character, folding ASCII letters to one case and leaving every
//! other character untouched.

use vstd::prelude::*;

verus! {

/// Whether two characters are equal up to ASCII case.
pub open spec fn char_eq_ci(x: char, y: char) -> bool {
    ||| x == y
    ||| (65 <= x as u32 <= 90 && x as u32 + 32 == y as u32)
    ||| (65 <= y as u32 <= 90 && y as u32 + 32 == x as u32)
}

/// Whether two character sequences are equal up to ASCII case.
pub open spec fn chars_eq_ci(a: Seq<char>, b: Seq<char>) -> bool {
    a.len() == b.len() && forall|i: int| 0 <= i < a.len() ==> char_eq_ci(#[trigger] a[i], b[i])
}

/// Compare two characters up to ASCII case.
pub fn char_matches_ci(x: char, y: char) -> (r: bool)
    ensures
        r == char_eq_ci(x, y),
{
    let xu = x as u32;
    let yu = y as u32;
    xu == yu || (65 <= xu && xu <= 90 && xu + 32 == yu) || (65 <= yu && yu <= 90 && yu + 32 == xu)
}

/// Compare two strings up to ASCII case.
pub fn str_matches_ci(a: &str, b: &str) -> (r: bool)
    ensures
        r == chars_eq_ci(a@, b@),
{
    let alen = a.unicode_len();
    let blen = b.unicode_len();
    if alen != blen {
        return false;
    }
    let mut i: usize = 0;
    while i < alen
        invariant
            alen == a@.len(),
            blen == b@.len(),
            alen == blen,
            i <= alen,
            forall|k: int| 0 <= k < i ==> char_eq_ci(#[trigger] a@[k], b@[k]),
        decreases alen - i,
    {
        let ca = a.get_char(i);
        let cb = b.get_char(i);
        if !char_matches_ci(ca, cb) {
            return false;
        }
        i += 1;
    }
    true
}

/// A fixed-point nano code truncated toward zero: the integer part
/// of the ratio between the code and one, with any fractional part
/// discarded in either direction.
pub open spec fn nano_trunc(value: i64) -> int {
    if value >= 0 {
        (value as int) / 1_000_000_000
    } else {
        0 - ((0 - value as int) / 1_000_000_000)
    }
}

/// Case-insensitive equality is reflexive: every name matches
/// itself.
pub proof fn lemma_chars_eq_ci_reflexive(a: Seq<char>)
    ensures
        chars_eq_ci(a, a),
{
}

} // verus!
