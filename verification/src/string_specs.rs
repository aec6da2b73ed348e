//! What is taken for granted of `String`: the two methods of the standard
//! library that the buffers are built on and for which no specification is
//! at hand. Each is stated as its documentation describes it, over the
//! string's characters.

use vstd::prelude::*;

verus! {

/// `String::push` appends the character `c` to the end of `s`.
pub assume_specification[ String::push ](s: &mut String, c: char)
    ensures
        final(s)@ == old(s)@.push(c),
;

/// `String::clear` removes all contents of `s`.
pub assume_specification[ String::clear ](s: &mut String)
    ensures
        final(s)@ == Seq::<char>::empty(),
;

} // verus!
