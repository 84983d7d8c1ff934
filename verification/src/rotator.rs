//! The cyclic shift itself: one character at a time, and whole texts.
//!
//! A shift moves every ASCII letter a number of places along the alphabet,
//! wrapping around at the ends and keeping the letter's case. Characters that
//! are not ASCII letters are never changed. The number of places may be any
//! integer: negative, zero, or beyond 26 either way.

use vstd::prelude::*;
use crate::alphabet::{
    alphabet, char_number, is_ascii_letter, is_ascii_upper, is_letter, is_lower, is_upper,
    letter_at, letter_index, to_upper, uppercase,
};

verus! {

/// Position reached from `index` by moving `shift` places along the alphabet.
/// The remainder is the mathematical one, so the result lies in `0..26` for
/// every `shift`, negative ones included.
pub open spec fn shifted_index(index: int, shift: int) -> int {
    (index + shift) % 26
}

/// Remainder of the division that rounds towards zero, which is what `%`
/// computes on machine integers: it has the sign of `a`.
pub open spec fn truncated_rem(a: int, b: int) -> int {
    if a >= 0 {
        a % b
    } else {
        -((-a) % b)
    }
}

/// The character that `c` becomes under `shift`.
pub open spec fn rot_char(shift: int, c: char) -> char {
    if !is_letter(c) {
        c
    } else {
        let letter = alphabet()[shifted_index(letter_index(c), shift)];
        if is_upper(c) {
            uppercase(letter)
        } else {
            letter
        }
    }
}

/// The text that `s` becomes under `shift`: each character shifted, in place.
pub open spec fn rot_text(shift: int, s: Seq<char>) -> Seq<char> {
    s.map_values(|c: char| rot_char(shift, c))
}

/// A configured shift. Its view is the number of places it moves a letter.
#[derive(Clone, Copy, Debug)]
pub struct Rotator {
    shift: i32,
}

impl View for Rotator {
    type V = int;

    closed spec fn view(&self) -> int {
        self.shift as int
    }
}

impl Rotator {
    /// A rotator that moves letters by `shift` places. Any `shift` is
    /// accepted.
    pub fn new(shift: i32) -> (r: Self)
        ensures
            r@ == shift,
    {
        Rotator { shift }
    }

    /// Shifts one character: an ASCII letter moves `self@` places along the
    /// alphabet, wrapping around and keeping its case; any other character
    /// comes back unchanged.
    pub fn rot(&self, c: char) -> (r: char)
        ensures
            r == rot_char(self@, c),
            !is_letter(c) ==> r == c,
            is_lower(c) ==> is_lower(r),
            is_upper(c) ==> is_upper(r),
            self@ % 26 == 0 ==> r == c,
    {
        if !is_ascii_letter(c) {
            return c;
        }
        let index: u8 = char_number(c);
        // In 64 bits the sum cannot overflow. Its remainder has the sign of
        // the sum, so 26 is added and the remainder taken once more.
        let moved: i64 = index as i64 + self.shift as i64;
        let wrapped: i64 = ((moved % 26) + 26) % 26;
        let letter: char = letter_at(wrapped as u8);
        if is_ascii_upper(c) {
            to_upper(letter)
        } else {
            letter
        }
    }

    /// Shifts a whole text: the result holds, position by position, the
    /// shifted form of each character of `inp`. Nothing is inserted and
    /// nothing is left out.
    pub fn rot_str(&self, inp: &str) -> (out: String)
        ensures
            out@ == rot_text(self@, inp@),
            out@.len() == inp@.len(),
            forall|i: int|
                0 <= i < inp@.len() ==> out@[i] == rot_char(self@, #[trigger] inp@[i]),
            self@ % 26 == 0 ==> out@ == inp@,
    {
        let mut out: String = String::new();
        for c in it: inp.chars()
            invariant
                it.seq() == inp@,
                out@ == rot_text(self@, inp@.take(it.index())),
        {
            let r: char = self.rot(c);
            out.push(r);
        }
        out
    }
}

/// The position that a shift leads to is one of the 26, and it is what two
/// machine remainders with 26 added in between compute:
/// `((index + shift) % 26 + 26) % 26`.
pub proof fn shifted_index_by_two_remainders(index: int, shift: int)
    ensures
        0 <= shifted_index(index, shift) < 26,
        shifted_index(index, shift) == truncated_rem(
            truncated_rem(index + shift, 26) + 26,
            26,
        ),
{
}

/// A shift leaves every character that is not an ASCII letter unchanged.
pub proof fn rot_char_passthrough(shift: int, c: char)
    requires
        !is_letter(c),
    ensures
        rot_char(shift, c) == c,
{
}

/// A shift keeps case: lowercase letters go to lowercase letters, uppercase
/// letters to uppercase letters, and what is no letter stays no letter.
pub proof fn rot_char_keeps_case(shift: int, c: char)
    ensures
        is_lower(c) <==> is_lower(rot_char(shift, c)),
        is_upper(c) <==> is_upper(rot_char(shift, c)),
{
}

/// Shifting by `n` and then by `m` is shifting by `n + m`.
pub proof fn rot_char_compose(n: int, m: int, c: char)
    ensures
        rot_char(m, rot_char(n, c)) == rot_char(n + m, c),
{
}

/// Shifts that differ by a multiple of 26 do the same to every character.
pub proof fn rot_char_periodic(n: int, m: int, c: char)
    requires
        (n - m) % 26 == 0,
    ensures
        rot_char(n, c) == rot_char(m, c),
{
}

/// A shift by a multiple of 26, zero among them, changes no character.
pub proof fn rot_char_identity(shift: int, c: char)
    requires
        shift % 26 == 0,
    ensures
        rot_char(shift, c) == c,
{
}

/// The shift by `26 - n` undoes the shift by `n` on every character.
pub proof fn rot_char_inverse(n: int, c: char)
    ensures
        rot_char(26 - n, rot_char(n, c)) == c,
{
}

/// A shifted text has as many characters as the text it came from, and each
/// of them is the shifted form of the character at its place.
pub proof fn rot_text_pointwise(shift: int, s: Seq<char>)
    ensures
        rot_text(shift, s).len() == s.len(),
        forall|i: int|
            0 <= i < s.len() ==> rot_text(shift, s)[i] == rot_char(shift, #[trigger] s[i]),
{
}

/// Shifting a text by `n` and then by `m` is shifting it by `n + m`.
pub proof fn rot_text_compose(n: int, m: int, s: Seq<char>)
    ensures
        rot_text(m, rot_text(n, s)) == rot_text(n + m, s),
{
}

/// A shift by a multiple of 26, zero among them, gives every text back
/// unchanged.
pub proof fn rot_text_identity(shift: int, s: Seq<char>)
    requires
        shift % 26 == 0,
    ensures
        rot_text(shift, s) == s,
{
}

/// Shifting a text by `n` and then by `26 - n` gives the text back, character
/// for character, whatever `n` is.
pub proof fn rot_text_inverse(n: int, s: Seq<char>)
    ensures
        rot_text(26 - n, rot_text(n, s)) == s,
{
}

} // verus!
