//! Specifications of the two `String` methods of the standard library that the
//! editor calls and vstd leaves unspecified.

use vstd::prelude::*;

verus! {

/// `String::push` appends the character to the end of the string.
pub assume_specification[ String::push ](text: &mut String, ch: char)
    ensures
        final(text)@ == old(text)@.push(ch),
;

/// `String::pop` removes the last character and returns it; from an empty
/// string it removes nothing and returns `None`.
pub assume_specification[ String::pop ](text: &mut String) -> (popped: Option<char>)
    ensures
        old(text)@.len() == 0 ==> popped.is_none() && final(text)@ == old(text)@,
        old(text)@.len() > 0 ==> popped == Some(old(text)@.last()) && final(text)@ == old(
            text,
        )@.drop_last(),
;

} // verus!
