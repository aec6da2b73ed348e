//! The output store: one text buffer per capsule, kept in ascending order of
//! capsule identifier, and one buffer for the hypervisor.
//!
//! Buffers only grow by appending at the end, and only a render pass empties
//! them. A capsule's buffer comes into being with the first character of that
//! capsule and is never removed. The sentinel is never stored.

use vstd::prelude::*;
use vstd::std_specs::cmp::OrdSpec;
use vstd::std_specs::iter::IteratorSpec;
use vstd::string::StringExecFns;
use std::collections::BTreeMap;
use crate::ansi::push_fg_color;
use crate::palette::{capsule_color, hypervisor_color};
use crate::frame::{
    ascending, buffer_of, capsule_blocks_below, capsule_frame, drained, hypervisor_block,
    lemma_blocks_skip_gap, CapsuleText,
};
use crate::source::{is_sentinel, sentinel_free, spec_is_sentinel, TaggedChar};

verus! {

/// The capsule buffers after `c` arrived from capsule `id`: `c` stands at the
/// end of that capsule's buffer, and nothing else changed.
pub open spec fn appended(capsules: CapsuleText, id: usize, c: char) -> CapsuleText {
    capsules.insert(id, buffer_of(capsules, id).push(c))
}

/// The capsule buffers after a poll returned `polled`: the sentinel changes
/// nothing, any other character is appended to its capsule's buffer.
pub open spec fn absorb_capsule(capsules: CapsuleText, polled: TaggedChar) -> CapsuleText {
    if is_sentinel(polled.character) {
        capsules
    } else {
        appended(capsules, polled.capsule_id, polled.character)
    }
}

/// The hypervisor buffer after a poll returned `c`: the sentinel changes
/// nothing, any other character is appended.
pub open spec fn absorb_hypervisor(text: Seq<char>, c: char) -> Seq<char> {
    if is_sentinel(c) {
        text
    } else {
        text.push(c)
    }
}

/// Whether every capsule's buffer is free of the sentinel.
pub open spec fn all_sentinel_free(capsules: CapsuleText) -> bool {
    forall|id: usize| capsules.contains_key(id) ==> sentinel_free(#[trigger] capsules[id])
}

/// In an ascending list of all keys, a key above the element before position
/// `at` is found at `at` or behind it.
proof fn lemma_next_key(ids: Seq<usize>, keys: Set<usize>, at: int, key: usize)
    requires
        ascending(ids),
        ids.to_set() == keys,
        0 <= at <= ids.len(),
        keys.contains(key),
        at > 0 ==> ids[at - 1] < key,
    ensures
        at < ids.len(),
        ids[at] <= key,
{
    assert(ids.to_set().contains(key));
    let found = choose|j: int| 0 <= j < ids.len() && ids[j] == key;
    if found < at - 1 {
        assert(ids[found] < ids[at - 1]);
    }
    if found > at {
        assert(ids[at] < ids[found]);
    }
}

/// The buffers of the capsules.
pub struct CapsuleStore {
    buffers: BTreeMap<usize, String>,
}

impl View for CapsuleStore {
    type V = Map<usize, Seq<char>>;

    /// The text of each buffer, by capsule identifier.
    closed spec fn view(&self) -> Map<usize, Seq<char>> {
        Map::new(|id: usize| self.buffers@.contains_key(id), |id: usize| self.buffers@[id]@)
    }
}

impl CapsuleStore {
    /// A store without any buffer.
    pub fn new() -> (store: CapsuleStore)
        ensures
            store@ == Map::<usize, Seq<char>>::empty(),
    {
        CapsuleStore { buffers: BTreeMap::new() }
    }

    /// Appends `c` to the buffer of capsule `capsule_id`, which is created if
    /// this is the capsule's first character.
    fn append(&mut self, capsule_id: usize, c: char)
        ensures
            final(self)@ == appended(old(self)@, capsule_id, c),
    {
        let mut buffer = match self.buffers.remove(&capsule_id) {
            Some(buffer) => buffer,
            None => String::new(),
        };
        buffer.push(c);
        self.buffers.insert(capsule_id, buffer);
    }

    /// Takes in what a poll of the capsules returned. The sentinel is not
    /// stored; the result says whether more may be queued, that is whether
    /// `polled` was not the sentinel.
    pub fn accept(&mut self, polled: TaggedChar) -> (more: bool)
        ensures
            more == !is_sentinel(polled.character),
            final(self)@ == absorb_capsule(old(self)@, polled),
    {
        if is_sentinel(polled.character) {
            false
        } else {
            self.append(polled.capsule_id, polled.character);
            true
        }
    }

    /// The text buffered for capsule `capsule_id`, if the capsule has a
    /// buffer.
    pub fn buffer(&self, capsule_id: usize) -> (text: Option<String>)
        ensures
            match text {
                Some(text) => self@.contains_key(capsule_id) && text@ == self@[capsule_id],
                None => !self@.contains_key(capsule_id),
            },
    {
        match self.buffers.get(&capsule_id) {
            Some(buffer) => Some(buffer.clone()),
            None => None,
        }
    }

    /// The capsules that have a buffer, in ascending order.
    pub fn capsule_ids(&self) -> (ids: Vec<usize>)
        ensures
            ids@.to_set() == self@.dom(),
            ascending(ids@),
    {
        let mut ids: Vec<usize> = Vec::new();
        for id in keys: self.buffers.keys()
            invariant
                ids@.len() == keys.index(),
                forall|i: int| 0 <= i < ids@.len() ==> ids@[i] == *keys.seq()[i],
        {
            ids.push(*id);
        }
        proof {
            let all = vstd::std_specs::btree::spec_keys_iter(&self.buffers).remaining();
            assert(ids@ =~= all.unref());
            vstd::std_specs::btree::axiom_increasing_seq_meaning::<&usize>(all);
            assert forall|i: int, j: int| 0 <= i < j < ids.len() implies ids[i] < ids[j] by {
                assert(OrdSpec::cmp_spec(&all[i], &all[j]) is Less);
            }
        }
        ids
    }

    /// Writes every buffer that holds text to the end of `out`, in ascending
    /// order of capsule identifier and each behind the sequence that sets its
    /// capsule's colour, and empties the buffers.
    pub fn drain_into(&mut self, out: &mut String)
        ensures
            final(out)@ == old(out)@ + capsule_frame(old(self)@),
            final(self)@ == drained(old(self)@),
    {
        let ids = self.capsule_ids();
        let ghost before = self@;
        let ghost written = out@;
        let ghost mut done: nat = 0;
        let mut i: usize = 0;
        while i < ids.len()
            invariant
                i <= ids.len(),
                ids@.to_set() == before.dom(),
                ascending(ids@),
                done == (if i == 0 {
                    0
                } else {
                    ids[i - 1] + 1
                }),
                out@ == written + capsule_blocks_below(before, done),
                self@.dom() == before.dom(),
                forall|id: usize|
                    before.contains_key(id) ==> #[trigger] self@[id] == (if id < done {
                        Seq::<char>::empty()
                    } else {
                        before[id]
                    }),
            decreases ids.len() - i,
        {
            let id: usize = ids[i];
            proof {
                assert(before.contains_key(id));
                assert forall|key: usize| done <= key < id implies !before.contains_key(key) by {
                    if before.contains_key(key) {
                        lemma_next_key(ids@, before.dom(), i as int, key);
                    }
                }
                lemma_blocks_skip_gap(before, done, id as nat);
            }
            let ghost held = self@;
            match self.buffers.remove(&id) {
                Some(mut buffer) => {
                    assert(buffer@ == held[id]);
                    if !buffer.as_str().is_empty() {
                        push_fg_color(out, capsule_color(id));
                        out.append(buffer.as_str());
                        buffer.clear();
                    }
                    self.buffers.insert(id, buffer);
                },
                // every capsule listed has a buffer
                None => {},
            }
            proof {
                assert forall|key: usize| before.contains_key(key) implies #[trigger] self@[key]
                    == (if key <= id {
                        Seq::<char>::empty()
                    } else {
                        before[key]
                    }) by {
                    if key != id {
                        assert(self@[key] == held[key]);
                    }
                }
                done = (id + 1) as nat;
            }
            i += 1;
        }
        proof {
            assert forall|key: usize| done <= key implies !before.contains_key(key) by {
                if before.contains_key(key) {
                    lemma_next_key(ids@, before.dom(), ids.len() as int, key);
                }
            }
            lemma_blocks_skip_gap(before, done, usize::MAX as nat + 1);
        }
    }
}

/// The buffer of the hypervisor.
pub struct HypervisorBuffer {
    text: String,
}

impl View for HypervisorBuffer {
    type V = Seq<char>;

    /// The buffered text.
    closed spec fn view(&self) -> Seq<char> {
        self.text@
    }
}

impl HypervisorBuffer {
    /// An empty buffer.
    pub fn new() -> (buffer: HypervisorBuffer)
        ensures
            buffer@ == Seq::<char>::empty(),
    {
        HypervisorBuffer { text: String::new() }
    }

    /// Appends `c` to the buffer.
    fn append(&mut self, c: char)
        ensures
            final(self)@ == old(self)@.push(c),
    {
        self.text.push(c);
    }

    /// Takes in what a poll of the hypervisor returned. The sentinel is not
    /// stored; the result says whether more may be queued, that is whether
    /// `c` was not the sentinel.
    pub fn accept(&mut self, c: char) -> (more: bool)
        ensures
            more == !is_sentinel(c),
            final(self)@ == absorb_hypervisor(old(self)@, c),
    {
        if is_sentinel(c) {
            false
        } else {
            self.append(c);
            true
        }
    }

    /// The buffered text.
    pub fn text(&self) -> (text: String)
        ensures
            text@ == self@,
    {
        self.text.clone()
    }

    /// Writes the buffer to the end of `out` behind the sequence that sets
    /// the hypervisor's colour, if it holds text, and empties it.
    pub fn drain_into(&mut self, out: &mut String)
        ensures
            final(out)@ == old(out)@ + hypervisor_block(old(self)@),
            final(self)@ == Seq::<char>::empty(),
    {
        if !self.text.as_str().is_empty() {
            push_fg_color(out, hypervisor_color());
            out.append(self.text.as_str());
            self.text.clear();
        }
    }
}

} // verus!
