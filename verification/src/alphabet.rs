//! The 26-letter Latin alphabet and the position of each letter in it.
//!
//! Positions are zero-based and ignore case: `'a'` and `'A'` stand at 0,
//! `'z'` and `'Z'` at 25. Everything here is defined for ASCII letters only;
//! any other character has no position.

use vstd::prelude::*;

verus! {

/// `c` is one of `'a'..='z'`.
pub open spec fn is_lower(c: char) -> bool {
    'a' <= c <= 'z'
}

/// `c` is one of `'A'..='Z'`.
pub open spec fn is_upper(c: char) -> bool {
    'A' <= c <= 'Z'
}

/// `c` is an ASCII letter of either case.
pub open spec fn is_letter(c: char) -> bool {
    is_lower(c) || is_upper(c)
}

/// The alphabet: the lowercase letters in order, starting with `'a'`.
pub open spec fn alphabet() -> Seq<char> {
    Seq::new(26, |i: int| ('a' as int + i) as char)
}

/// The uppercase form of a lowercase letter; any other character is left
/// as it is.
pub open spec fn uppercase(c: char) -> char {
    if is_lower(c) {
        (c as int - 'a' as int + 'A' as int) as char
    } else {
        c
    }
}

/// The lowercase form of an uppercase letter; any other character is left
/// as it is.
pub open spec fn lowercase(c: char) -> char {
    if is_upper(c) {
        (c as int - 'A' as int + 'a' as int) as char
    } else {
        c
    }
}

/// Zero-based position of the letter `c` in the alphabet, whatever its case.
pub open spec fn letter_index(c: char) -> int
    recommends
        is_letter(c),
{
    lowercase(c) as int - 'a' as int
}

/// The alphabet, letter by letter.
pub proof fn alphabet_spelled_out()
    ensures
        alphabet() == "abcdefghijklmnopqrstuvwxyz"@,
{
    reveal_strlit("abcdefghijklmnopqrstuvwxyz");
}

/// Every position of the alphabet holds a lowercase letter, and looking
/// that letter up, in lowercase or in uppercase, gives the position back. So
/// no letter stands at two positions.
pub proof fn alphabet_positions(i: int)
    requires
        0 <= i < 26,
    ensures
        is_lower(alphabet()[i]),
        is_upper(uppercase(alphabet()[i])),
        letter_index(alphabet()[i]) == i,
        letter_index(uppercase(alphabet()[i])) == i,
{
}

/// The position of a letter of either case is one of the 26, and the
/// alphabet holds the letter's lowercase form there. So every letter stands
/// in the alphabet.
pub proof fn letter_index_in_alphabet(c: char)
    requires
        is_letter(c),
    ensures
        0 <= letter_index(c) < 26,
        alphabet()[letter_index(c)] == lowercase(c),
{
}

/// Tells whether `c` is an ASCII letter.
pub fn is_ascii_letter(c: char) -> (b: bool)
    ensures
        b == is_letter(c),
{
    ('a' <= c && c <= 'z') || ('A' <= c && c <= 'Z')
}

/// Tells whether `c` is an uppercase ASCII letter.
pub fn is_ascii_upper(c: char) -> (b: bool)
    ensures
        b == is_upper(c),
{
    'A' <= c && c <= 'Z'
}

/// Position of an ASCII letter in the alphabet, case-insensitively: 0 for
/// `'a'` and `'A'`, 25 for `'z'` and `'Z'`.
///
/// Only letters have a position; the caller filters everything else out
/// before asking.
pub fn char_number(c: char) -> (n: u8)
    requires
        is_letter(c),
    ensures
        n == letter_index(c),
        n < 26,
        alphabet()[n as int] == lowercase(c),
{
    let code: u32 = c as u32;
    if 'a' <= c && c <= 'z' {
        (code - 'a' as u32) as u8
    } else {
        (code - 'A' as u32) as u8
    }
}

/// The lowercase letter at position `n` of the alphabet.
pub fn letter_at(n: u8) -> (c: char)
    requires
        n < 26,
    ensures
        c == alphabet()[n as int],
        is_lower(c),
        letter_index(c) == n,
{
    ('a' as u8 + n) as char
}

/// Uppercase form of `c` where `c` is a lowercase ASCII letter; `c` itself
/// otherwise.
pub fn to_upper(c: char) -> (u: char)
    ensures
        u == uppercase(c),
{
    if 'a' <= c && c <= 'z' {
        let code: u32 = c as u32;
        ((code - 'a' as u32) as u8 + 'A' as u8) as char
    } else {
        c
    }
}

} // verus!
