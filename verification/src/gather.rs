//! Gathering: what becomes of the buffers as poll results come in, and which
//! source to poll next.
//!
//! One round of gathering polls the capsules until the sentinel comes back,
//! then the hypervisor until the sentinel comes back. Neither poll blocks, so
//! a round takes in what is queued and no more. A poll that fails ends the
//! round with a fatal error.

use vstd::prelude::*;
use crate::error::Fatal;
use crate::frame::{buffer_of, frame, CapsuleText};
use crate::source::{is_sentinel, sentinel_free, spec_is_sentinel, TaggedChar};
use crate::store::{
    absorb_capsule, absorb_hypervisor, all_sentinel_free, CapsuleStore, HypervisorBuffer,
};

verus! {

/// A source of output to poll.
#[derive(Clone, Copy, Debug, PartialEq, Eq)]
pub enum Source {
    Capsules,
    Hypervisor,
}

/// How far a round of gathering has come.
#[derive(Clone, Copy, Debug, PartialEq, Eq)]
pub enum GatherPhase {
    /// The capsules may have more queued.
    Capsules,
    /// The capsules are drained; the hypervisor may have more queued.
    Hypervisor,
    /// Both sources are drained.
    Done,
}

impl GatherPhase {
    /// The phase in which every round starts.
    pub fn start() -> (phase: GatherPhase)
        ensures
            phase == GatherPhase::Capsules,
    {
        GatherPhase::Capsules
    }

    /// The source to poll next, or `None` when the round is over.
    pub fn next_poll(&self) -> (source: Option<Source>)
        ensures
            source == match *self {
                GatherPhase::Capsules => Some(Source::Capsules),
                GatherPhase::Hypervisor => Some(Source::Hypervisor),
                GatherPhase::Done => None::<Source>,
            },
    {
        match self {
            GatherPhase::Capsules => Some(Source::Capsules),
            GatherPhase::Hypervisor => Some(Source::Hypervisor),
            GatherPhase::Done => None,
        }
    }
}

/// Where a round stands after a poll of the capsules: it stays with the
/// capsules while characters come, moves on to the hypervisor at the
/// sentinel, and fails if the poll failed.
pub open spec fn after_capsule_poll<E>(result: Result<TaggedChar, E>) -> Result<
    GatherPhase,
    Fatal<E>,
> {
    match result {
        Ok(polled) => Ok(
            if is_sentinel(polled.character) {
                GatherPhase::Hypervisor
            } else {
                GatherPhase::Capsules
            },
        ),
        Err(e) => Err(Fatal::CapsulePoll(e)),
    }
}

/// Where a round stands after a poll of the hypervisor: it stays with the
/// hypervisor while characters come, is over at the sentinel, and fails if
/// the poll failed.
pub open spec fn after_hypervisor_poll<E>(result: Result<char, E>) -> Result<GatherPhase, Fatal<E>> {
    match result {
        Ok(c) => Ok(
            if is_sentinel(c) {
                GatherPhase::Done
            } else {
                GatherPhase::Hypervisor
            },
        ),
        Err(e) => Err(Fatal::HypervisorPoll(e)),
    }
}

/// Takes in the result of one poll of the capsules and says how the round
/// goes on. A character other than the sentinel is appended to its capsule's
/// buffer; the sentinel and a failure leave the store as it was.
pub fn capsule_polled<E>(store: &mut CapsuleStore, result: Result<TaggedChar, E>) -> (next: Result<
    GatherPhase,
    Fatal<E>,
>)
    ensures
        next == after_capsule_poll(result),
        final(store)@ == match result {
            Ok(polled) => absorb_capsule(old(store)@, polled),
            Err(_) => old(store)@,
        },
{
    match result {
        Ok(polled) => {
            if store.accept(polled) {
                Ok(GatherPhase::Capsules)
            } else {
                Ok(GatherPhase::Hypervisor)
            }
        },
        Err(e) => Err(Fatal::CapsulePoll(e)),
    }
}

/// Takes in the result of one poll of the hypervisor and says how the round
/// goes on. A character other than the sentinel is appended to the buffer;
/// the sentinel and a failure leave the buffer as it was.
pub fn hypervisor_polled<E>(buffer: &mut HypervisorBuffer, result: Result<char, E>) -> (next:
    Result<GatherPhase, Fatal<E>>)
    ensures
        next == after_hypervisor_poll(result),
        final(buffer)@ == match result {
            Ok(c) => absorb_hypervisor(old(buffer)@, c),
            Err(_) => old(buffer)@,
        },
{
    match result {
        Ok(c) => {
            if buffer.accept(c) {
                Ok(GatherPhase::Hypervisor)
            } else {
                Ok(GatherPhase::Done)
            }
        },
        Err(e) => Err(Fatal::HypervisorPoll(e)),
    }
}

/// A character that a poll returned, by the source that was polled.
pub enum Polled {
    Capsule(TaggedChar),
    Hypervisor(char),
}

/// The text of all buffers.
pub struct Buffers {
    pub hypervisor: Seq<char>,
    pub capsules: CapsuleText,
}

/// The buffers after one polled character was taken in.
pub open spec fn absorb(buffers: Buffers, polled: Polled) -> Buffers {
    match polled {
        Polled::Capsule(tagged) => Buffers {
            hypervisor: buffers.hypervisor,
            capsules: absorb_capsule(buffers.capsules, tagged),
        },
        Polled::Hypervisor(c) => Buffers {
            hypervisor: absorb_hypervisor(buffers.hypervisor, c),
            capsules: buffers.capsules,
        },
    }
}

/// The buffers after the characters of `polls` were taken in, first to last.
pub open spec fn absorb_all(buffers: Buffers, polls: Seq<Polled>) -> Buffers
    decreases polls.len(),
{
    if polls.len() == 0 {
        buffers
    } else {
        absorb(absorb_all(buffers, polls.drop_last()), polls.last())
    }
}

/// The characters of capsule `id` among `polls`, in arrival order and without
/// the sentinel.
pub open spec fn capsule_chars(polls: Seq<Polled>, id: usize) -> Seq<char>
    decreases polls.len(),
{
    if polls.len() == 0 {
        Seq::empty()
    } else {
        let earlier = capsule_chars(polls.drop_last(), id);
        match polls.last() {
            Polled::Capsule(tagged) => if tagged.capsule_id == id && !is_sentinel(
                tagged.character,
            ) {
                earlier.push(tagged.character)
            } else {
                earlier
            },
            Polled::Hypervisor(_) => earlier,
        }
    }
}

/// The characters of the hypervisor among `polls`, in arrival order and
/// without the sentinel.
pub open spec fn hypervisor_chars(polls: Seq<Polled>) -> Seq<char>
    decreases polls.len(),
{
    if polls.len() == 0 {
        Seq::empty()
    } else {
        let earlier = hypervisor_chars(polls.drop_last());
        match polls.last() {
            Polled::Capsule(_) => earlier,
            Polled::Hypervisor(c) => if is_sentinel(c) {
                earlier
            } else {
                earlier.push(c)
            },
        }
    }
}

/// Whether no buffer holds the sentinel.
pub open spec fn holds_no_sentinel(buffers: Buffers) -> bool {
    sentinel_free(buffers.hypervisor) && all_sentinel_free(buffers.capsules)
}

/// Whatever the order in which characters of different sources arrive, after
/// gathering each capsule's buffer holds what it held before, followed by the
/// characters of that capsule in their order of arrival, and the hypervisor's
/// buffer holds what it held before, followed by the hypervisor's characters
/// in their order of arrival. A capsule has a buffer afterwards if it had one
/// before or a character of it arrived.
pub proof fn lemma_buffers_keep_arrival_order(buffers: Buffers, polls: Seq<Polled>, id: usize)
    ensures
        buffer_of(absorb_all(buffers, polls).capsules, id) == buffer_of(buffers.capsules, id)
            + capsule_chars(polls, id),
        absorb_all(buffers, polls).capsules.contains_key(id) <==> buffers.capsules.contains_key(id)
            || capsule_chars(polls, id).len() > 0,
        absorb_all(buffers, polls).hypervisor == buffers.hypervisor + hypervisor_chars(polls),
    decreases polls.len(),
{
    if polls.len() == 0 {
        assert(buffer_of(buffers.capsules, id) + Seq::<char>::empty() =~= buffer_of(
            buffers.capsules,
            id,
        ));
    } else {
        lemma_buffers_keep_arrival_order(buffers, polls.drop_last(), id);
        assert(buffer_of(absorb_all(buffers, polls).capsules, id) =~= buffer_of(
            buffers.capsules,
            id,
        ) + capsule_chars(polls, id));
    }
}

/// Characters polled from the capsules never reach the hypervisor's buffer,
/// and characters polled from the hypervisor never reach a capsule's buffer.
pub proof fn lemma_sources_stay_apart(buffers: Buffers, polls: Seq<Polled>)
    ensures
        (forall|i: int| 0 <= i < polls.len() ==> polls[i] is Capsule) ==> absorb_all(
            buffers,
            polls,
        ).hypervisor == buffers.hypervisor,
        (forall|i: int| 0 <= i < polls.len() ==> polls[i] is Hypervisor) ==> absorb_all(
            buffers,
            polls,
        ).capsules == buffers.capsules,
    decreases polls.len(),
{
    if polls.len() > 0 {
        lemma_all_but_last(polls);
        lemma_sources_stay_apart(buffers, polls.drop_last());
    }
}

/// What holds of every element of `polls` holds of every element but the
/// last.
proof fn lemma_all_but_last(polls: Seq<Polled>)
    requires
        polls.len() > 0,
    ensures
        (forall|i: int| 0 <= i < polls.len() ==> polls[i] is Capsule) ==> (forall|i: int|
            0 <= i < polls.drop_last().len() ==> polls.drop_last()[i] is Capsule),
        (forall|i: int| 0 <= i < polls.len() ==> polls[i] is Hypervisor) ==> (forall|i: int|
            0 <= i < polls.drop_last().len() ==> polls.drop_last()[i] is Hypervisor),
{
    assert forall|i: int| 0 <= i < polls.drop_last().len() implies polls.drop_last()[i]
        == polls[i] by {}
}

/// The sentinel is never stored: if no buffer holds it before gathering, none
/// holds it afterwards, whatever was polled.
pub proof fn lemma_sentinel_never_buffered(buffers: Buffers, polls: Seq<Polled>)
    requires
        holds_no_sentinel(buffers),
    ensures
        holds_no_sentinel(absorb_all(buffers, polls)),
    decreases polls.len(),
{
    if polls.len() > 0 {
        lemma_sentinel_never_buffered(buffers, polls.drop_last());
    }
}

/// What is rendered depends on what each source sent, not on how the sources
/// took turns: two runs of polls in which every capsule and the hypervisor
/// sent the same characters in the same order leave the same buffers, and so
/// the same frame.
pub proof fn lemma_interleaving_does_not_show(buffers: Buffers, one: Seq<Polled>, other: Seq<Polled>)
    requires
        hypervisor_chars(one) == hypervisor_chars(other),
        forall|id: usize| capsule_chars(one, id) == capsule_chars(other, id),
    ensures
        absorb_all(buffers, one) == absorb_all(buffers, other),
        frame(absorb_all(buffers, one).hypervisor, absorb_all(buffers, one).capsules) == frame(
            absorb_all(buffers, other).hypervisor,
            absorb_all(buffers, other).capsules,
        ),
{
    let a = absorb_all(buffers, one);
    let b = absorb_all(buffers, other);
    assert forall|id: usize| #[trigger]
        a.capsules.contains_key(id) == b.capsules.contains_key(id) && buffer_of(a.capsules, id)
            == buffer_of(b.capsules, id) by {
        lemma_buffers_keep_arrival_order(buffers, one, id);
        lemma_buffers_keep_arrival_order(buffers, other, id);
    }
    assert forall|id: usize| a.capsules.contains_key(id) implies #[trigger] a.capsules[id]
        == b.capsules[id] by {
        assert(buffer_of(a.capsules, id) == buffer_of(b.capsules, id));
    }
    lemma_buffers_keep_arrival_order(buffers, one, 0);
    lemma_buffers_keep_arrival_order(buffers, other, 0);
    assert(a.capsules =~= b.capsules);
}

} // verus!
