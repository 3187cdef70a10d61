//! Hexadecimal text: ASCII only, either case.

use vstd::prelude::*;

verus! {

/// An ASCII hexadecimal digit: `0-9`, `a-f` or `A-F`.
pub open spec fn is_hex_digit(c: char) -> bool {
    ('0' <= c && c <= '9') || ('a' <= c && c <= 'f') || ('A' <= c && c <= 'F')
}

/// Text made of hexadecimal digits only. The empty text is hexadecimal.
pub open spec fn is_hex_string(s: Seq<char>) -> bool {
    forall|i: int| 0 <= i < s.len() ==> is_hex_digit(#[trigger] s[i])
}

/// Tells whether `c` is an ASCII hexadecimal digit.
pub fn hex_digit(c: char) -> (b: bool)
    ensures
        b == is_hex_digit(c),
{
    ('0' <= c && c <= '9') || ('a' <= c && c <= 'f') || ('A' <= c && c <= 'F')
}

/// Tells whether every character of `s` is an ASCII hexadecimal digit.
pub fn validate_hex_string(s: &str) -> (b: bool)
    ensures
        b == is_hex_string(s@),
{
    let mut ok = true;
    for c in it: s.chars()
        invariant
            it.seq() == s@,
            ok == (forall|k: int| 0 <= k < it.index() ==> is_hex_digit(#[trigger] s@[k])),
    {
        if !hex_digit(c) {
            ok = false;
        }
    }
    ok
}

} // verus!
