//! The render pass.

use vstd::prelude::*;
use crate::ansi::clear_attributes;
use crate::frame::{drained, frame};
use crate::store::{CapsuleStore, HypervisorBuffer};

verus! {

/// One render pass: the text to write to the terminal. It resets the display
/// attributes, then holds the hypervisor's buffer, then the capsules' buffers
/// in ascending order of capsule identifier. Every buffer is empty
/// afterwards, and no buffer is removed.
pub fn draw_ui(hypervisor: &mut HypervisorBuffer, capsules: &mut CapsuleStore) -> (text: String)
    ensures
        text@ == frame(old(hypervisor)@, old(capsules)@),
        final(hypervisor)@ == Seq::<char>::empty(),
        final(capsules)@ == drained(old(capsules)@),
{
    let mut text = clear_attributes();
    hypervisor.drain_into(&mut text);
    capsules.drain_into(&mut text);
    text
}

} // verus!
