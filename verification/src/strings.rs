//! What the library assumes of the standard `String`.

use vstd::prelude::*;

verus! {

/// `String::push` of the standard library: it appends the one character
/// `ch` to the end of the string and changes nothing before it.
pub assume_specification[ String::push ](s: &mut String, ch: char)
    ensures
        final(s)@ == old(s)@.push(ch),
;

} // verus!
