//! Small verified helpers over strings and ASCII byte sequences, shared by
//! the table lookups, the shebang parser and the classifier.

use vstd::prelude::*;

verus! {

/// ASCII case folding of one character: `'A'..='Z'` maps to its lowercase
/// form, every other character is unchanged.
pub open spec fn lower_char(c: char) -> char {
    if 65 <= c as u32 && c as u32 <= 90 {
        ((c as u8) + 32) as char
    } else {
        c
    }
}

/// ASCII case folding of a whole character sequence.
pub open spec fn spec_lower(s: Seq<char>) -> Seq<char> {
    s.map_values(|c: char| lower_char(c))
}

/// The characters standing for a sequence of ASCII bytes, one per byte.
pub open spec fn chars_of_bytes(s: Seq<u8>) -> Seq<char> {
    s.map_values(|b: u8| b as char)
}

/// Character-wise string equality, giving view equality.
pub fn str_eq(a: &str, b: &str) -> (r: bool)
    ensures
        r == (a@ == b@),
{
    let n = a.unicode_len();
    let m = b.unicode_len();
    if n != m {
        assert(a@ != b@) by {
            assert(a@.len() != b@.len());
        }
        return false;
    }
    let mut i: usize = 0;
    while i < n
        invariant
            0 <= i <= n,
            n == a@.len(),
            n == b@.len(),
            forall|k: int| 0 <= k < i ==> a@[k] == b@[k],
        decreases n - i,
    {
        if a.get_char(i) != b.get_char(i) {
            return false;
        }
        i += 1;
    }
    assert(a@ =~= b@);
    true
}

/// ASCII case folding of a string.
///
/// Relies on `str::to_ascii_lowercase`: its documentation states that ASCII
/// letters 'A' to 'Z' are mapped to 'a' to 'z' and all other characters are
/// left unchanged.
#[verifier::external_body]
pub fn to_ascii_lower(s: &str) -> (r: String)
    ensures
        r@ == spec_lower(s@),
{
    s.to_ascii_lowercase()
}

/// Builds a `String` from ASCII bytes, one character per byte.
///
/// Relies on `String::from_utf8`: its documentation states that bytes below
/// 0x80 are valid UTF-8 and decode to the characters with the same values.
#[verifier::external_body]
pub fn ascii_to_string(bytes: &[u8]) -> (r: String)
    requires
        forall|i: int| 0 <= i < bytes@.len() ==> bytes@[i] < 0x80,
    ensures
        r@ == chars_of_bytes(bytes@),
{
    match String::from_utf8(bytes.to_vec()) {
        Ok(s) => s,
        Err(_) => String::new(),
    }
}

} // verus!
