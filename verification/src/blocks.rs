//! Character-level predicates on data blocks.
//!
//! A data block is a string of hexadecimal digits. The checks below are the
//! building blocks shared by the structural pre-checker and the
//! opcode-specific rules: whether a string is a well-formed hexadecimal
//! number, and whether a range of its digits is all zeros.

use vstd::prelude::*;

verus! {

/// A character is a hexadecimal digit (case-insensitive).
pub open spec fn spec_is_hex_digit(c: char) -> bool {
    ('0' <= c && c <= '9') || ('a' <= c && c <= 'f') || ('A' <= c && c <= 'F')
}

/// A block parses as a base-16 number: it is non-empty and every character
/// is a hexadecimal digit.
pub open spec fn spec_valid_hex(s: Seq<char>) -> bool {
    s.len() > 0 && (forall|i: int| 0 <= i < s.len() ==> spec_is_hex_digit(s[i]))
}

/// Every character of `s` with an index in `[from, to)` is the digit `0`.
pub open spec fn spec_zeros_range(s: Seq<char>, from: int, to: int) -> bool {
    forall|i: int| from <= i < to ==> s[i] == '0'
}

pub fn is_hex_digit(c: char) -> (r: bool)
    ensures
        r == spec_is_hex_digit(c),
{
    ('0' <= c && c <= '9') || ('a' <= c && c <= 'f') || ('A' <= c && c <= 'F')
}

pub fn is_valid_hex(s: &str) -> (r: bool)
    ensures
        r == spec_valid_hex(s@),
{
    let len = s.unicode_len();
    if len == 0 {
        return false;
    }
    let mut i: usize = 0;
    while i < len
        invariant
            len == s@.len(),
            i <= len,
            forall|j: int| 0 <= j < i ==> spec_is_hex_digit(s@[j]),
        decreases len - i,
    {
        if !is_hex_digit(s.get_char(i)) {
            return false;
        }
        i = i + 1;
    }
    true
}

pub fn zeros_range(s: &str, from: usize, to: usize) -> (r: bool)
    requires
        from <= to <= s@.len(),
    ensures
        r == spec_zeros_range(s@, from as int, to as int),
{
    let len = s.unicode_len();
    let mut i: usize = from;
    while i < to
        invariant
            from <= i <= to <= len == s@.len(),
            forall|j: int| from <= j < i ==> s@[j] == '0',
        decreases to - i,
    {
        if s.get_char(i) != '0' {
            return false;
        }
        i = i + 1;
    }
    true
}

} // verus!
