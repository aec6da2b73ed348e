//! What a render pass writes, as a function of the buffers it finds.
//!
//! A pass resets the display attributes, then writes the hypervisor's buffer,
//! then each capsule's buffer in ascending order of capsule identifier. A
//! buffer that holds text is preceded by the sequence that sets its colour;
//! an empty buffer contributes nothing.

use vstd::prelude::*;
use crate::ansi::{clear_attributes_text, fg_color_text};
use crate::palette::{capsule_color_of, HYPERVISOR_COLOR};

verus! {


/// The text of every capsule buffer, by capsule identifier.
pub type CapsuleText = Map<usize, Seq<char>>;

/// The text buffered for capsule `id`: empty if the capsule has no buffer
/// yet.
pub open spec fn buffer_of(capsules: CapsuleText, id: usize) -> Seq<char> {
    if capsules.contains_key(id) {
        capsules[id]
    } else {
        Seq::empty()
    }
}

/// Whether each element of `ids` is smaller than the next.
pub open spec fn ascending(ids: Seq<usize>) -> bool {
    forall|i: int, j: int| 0 <= i < j < ids.len() ==> ids[i] < ids[j]
}

/// One buffer as it is written: nothing if it is empty, else the sequence
/// that sets `color` once, followed by the text in arrival order.
pub open spec fn block(color: nat, text: Seq<char>) -> Seq<char> {
    if text.len() == 0 {
        Seq::empty()
    } else {
        fg_color_text(color) + text
    }
}

/// The hypervisor's buffer as it is written.
pub open spec fn hypervisor_block(text: Seq<char>) -> Seq<char> {
    block(HYPERVISOR_COLOR as nat, text)
}

/// Whether capsule `id` has a buffer that holds text.
pub open spec fn has_text(capsules: CapsuleText, id: nat) -> bool {
    id <= usize::MAX && capsules.contains_key(id as usize) && capsules[id as usize].len() > 0
}

/// The buffer of capsule `id` as it is written; nothing if the capsule has
/// no buffer.
pub open spec fn capsule_block(capsules: CapsuleText, id: nat) -> Seq<char> {
    if has_text(capsules, id) {
        block(capsule_color_of(id as usize) as nat, capsules[id as usize])
    } else {
        Seq::empty()
    }
}

/// The blocks of all capsules with an identifier below `bound`, in ascending
/// order of identifier.
pub open spec fn capsule_blocks_below(capsules: CapsuleText, bound: nat) -> Seq<char>
    decreases bound,
{
    if bound == 0 {
        Seq::empty()
    } else {
        capsule_blocks_below(capsules, (bound - 1) as nat) + capsule_block(
            capsules,
            (bound - 1) as nat,
        )
    }
}

/// The blocks of all capsules, in ascending order of identifier.
pub open spec fn capsule_frame(capsules: CapsuleText) -> Seq<char> {
    capsule_blocks_below(capsules, usize::MAX as nat + 1)
}

/// Everything one render pass writes.
pub open spec fn frame(hypervisor: Seq<char>, capsules: CapsuleText) -> Seq<char> {
    clear_attributes_text() + hypervisor_block(hypervisor) + capsule_frame(capsules)
}

/// The capsule buffers after a render pass: the same capsules, every buffer
/// empty.
pub open spec fn drained(capsules: CapsuleText) -> CapsuleText {
    Map::new(|id: usize| capsules.contains_key(id), |id: usize| Seq::<char>::empty())
}

/// Capsules without a buffer between `from` and `to` leave no trace in the
/// frame.
pub proof fn lemma_blocks_skip_gap(capsules: CapsuleText, from: nat, to: nat)
    requires
        from <= to,
        forall|id: usize| from <= id < to ==> !capsules.contains_key(id),
    ensures
        capsule_blocks_below(capsules, to) == capsule_blocks_below(capsules, from),
    decreases to,
{
    if from < to {
        lemma_blocks_skip_gap(capsules, from, (to - 1) as nat);
    }
}

/// The capsules with an identifier below `bound` whose buffers hold text, in
/// ascending order.
pub open spec fn render_order_below(capsules: CapsuleText, bound: nat) -> Seq<usize>
    decreases bound,
{
    if bound == 0 {
        Seq::empty()
    } else {
        let lower = render_order_below(capsules, (bound - 1) as nat);
        if has_text(capsules, (bound - 1) as nat) {
            lower.push((bound - 1) as usize)
        } else {
            lower
        }
    }
}

/// The capsules whose buffers a render pass writes, in the order in which it
/// writes them.
pub open spec fn render_order(capsules: CapsuleText) -> Seq<usize> {
    render_order_below(capsules, usize::MAX as nat + 1)
}

/// The blocks of the capsules in `order`, one after the other.
pub open spec fn blocks_in_order(capsules: CapsuleText, order: Seq<usize>) -> Seq<char>
    decreases order.len(),
{
    if order.len() == 0 {
        Seq::empty()
    } else {
        blocks_in_order(capsules, order.drop_last()) + capsule_block(capsules, order.last() as nat)
    }
}

/// What `render_order_below` holds: the capsules below `bound` with text,
/// each once, the smaller before the larger, and the blocks below `bound` are
/// their blocks in that order.
proof fn lemma_render_order_below(capsules: CapsuleText, bound: nat)
    requires
        bound <= usize::MAX + 1,
    ensures
        ascending(render_order_below(capsules, bound)),
        forall|i: int|
            0 <= i < render_order_below(capsules, bound).len() ==> (#[trigger] render_order_below(
                capsules,
                bound,
            )[i]) < bound,
        forall|id: usize|
            render_order_below(capsules, bound).contains(id) <==> id < bound && has_text(
                capsules,
                id as nat,
            ),
        capsule_blocks_below(capsules, bound) == blocks_in_order(
            capsules,
            render_order_below(capsules, bound),
        ),
    decreases bound,
{
    if bound > 0 {
        let lower = render_order_below(capsules, (bound - 1) as nat);
        let order = render_order_below(capsules, bound);
        let top = (bound - 1) as usize;
        lemma_render_order_below(capsules, (bound - 1) as nat);
        if has_text(capsules, (bound - 1) as nat) {
            assert(order.drop_last() =~= lower);
            assert forall|id: usize| order.contains(id) <==> id < bound && has_text(
                capsules,
                id as nat,
            ) by {
                if id == top {
                    assert(order[order.len() - 1] == id);
                }
            }
        } else {
            assert(capsule_blocks_below(capsules, bound) =~= capsule_blocks_below(
                capsules,
                (bound - 1) as nat,
            ));
            assert forall|id: usize| order.contains(id) <==> id < bound && has_text(
                capsules,
                id as nat,
            ) by {}
        }
    } else {
        assert forall|id: usize| !render_order_below(capsules, bound).contains(id) by {}
    }
}

/// Capsules are rendered in ascending order of their identifiers, whatever
/// the order in which their characters arrived: the capsules that a pass
/// writes are those whose buffers hold text, each once and the smaller
/// identifier before the larger, and what the pass writes for the capsules is
/// their blocks in that order.
pub proof fn lemma_capsules_render_in_ascending_order(capsules: CapsuleText)
    ensures
        ascending(render_order(capsules)),
        forall|id: usize| render_order(capsules).contains(id) <==> has_text(capsules, id as nat),
        capsule_frame(capsules) == blocks_in_order(capsules, render_order(capsules)),
{
    lemma_render_order_below(capsules, usize::MAX as nat + 1);
}

/// After a render pass every buffer is empty, so a pass that follows without
/// anything gathered in between writes the attribute reset and nothing else,
/// and changes nothing.
pub proof fn lemma_pass_after_pass_writes_no_text(capsules: CapsuleText)
    ensures
        frame(Seq::<char>::empty(), drained(capsules)) == clear_attributes_text(),
        drained(drained(capsules)) == drained(capsules),
{
    lemma_drained_frame_below(capsules, usize::MAX as nat + 1);
}

/// Drained buffers write nothing.
proof fn lemma_drained_frame_below(capsules: CapsuleText, bound: nat)
    ensures
        capsule_blocks_below(drained(capsules), bound) == Seq::<char>::empty(),
    decreases bound,
{
    if bound > 0 {
        lemma_drained_frame_below(capsules, (bound - 1) as nat);
    }
}

/// A render pass does not affect a buffer that nothing was gathered into
/// since the pass before, that is one that holds nothing or does not exist
/// yet: the pass writes nothing for it, and the buffer is afterwards what it
/// was.
pub proof fn lemma_pass_leaves_empty_buffer_alone(capsules: CapsuleText, id: usize)
    requires
        buffer_of(capsules, id).len() == 0,
    ensures
        capsule_block(capsules, id as nat) == Seq::<char>::empty(),
        drained(capsules).contains_key(id) == capsules.contains_key(id),
        buffer_of(drained(capsules), id) == buffer_of(capsules, id),
{
}

} // verus!
