//! What the byte sources hand over: characters, some tagged with the capsule
//! they came from, and the reserved character that means "nothing queued".

use vstd::prelude::*;

verus! {

/// A character polled from the capsules, with the capsule it came from.
#[derive(Clone, Copy, Debug, PartialEq, Eq)]
pub struct TaggedChar {
    pub capsule_id: usize,
    pub character: char,
}

impl TaggedChar {
    /// Tags `character` as output of capsule `capsule_id`.
    pub fn new(capsule_id: usize, character: char) -> (tagged: TaggedChar)
        ensures
            tagged.capsule_id == capsule_id,
            tagged.character == character,
    {
        TaggedChar { capsule_id, character }
    }
}

/// Whether `c` is the sentinel of the non-blocking polls: its code, cut to
/// its low eight bits and read as a signed byte, is -1. That is the case when
/// the low eight bits are all set.
pub open spec fn spec_is_sentinel(c: char) -> bool {
    (c as u32) % 256 == 255
}

/// Whether `c` is the sentinel by which a poll says that no character is
/// queued.
#[verifier::when_used_as_spec(spec_is_sentinel)]
pub fn is_sentinel(c: char) -> (yes: bool)
    ensures
        yes == spec_is_sentinel(c),
{
    let code: u32 = c as u32;
    code % 256 == 255
}

/// Whether `text` is free of the sentinel.
pub open spec fn sentinel_free(text: Seq<char>) -> bool {
    forall|i: int| 0 <= i < text.len() ==> !is_sentinel(#[trigger] text[i])
}

} // verus!
