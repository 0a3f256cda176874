//! Densely packed per-instance data, keyed by handle.
//!
//! The batch owns a contiguous buffer of per-instance payloads (the CPU
//! mirror of a GPU-resident buffer) plus a map from handle key to the
//! payload's current slot. Slots always form the gapless range
//! `[0, len)`: removal backfills the freed slot with the last occupied
//! slot's payload (swap-with-last), so insertion, update and removal are
//! all O(1). When the fixed capacity is exhausted, the batch grows
//! geometrically and the renderer must recreate its buffer at the new
//! capacity.

use vstd::prelude::*;
use std::collections::HashMap;
use crate::handle::Handle;

verus! {

broadcast use vstd::std_specs::hash::group_hash_axioms;

/// A handle packed into the integer key under which the batch stores it.
pub open spec fn k64(h: Handle) -> u64 {
    h.spec_key() as u64
}

/// Handles with equal keys are equal.
pub proof fn lemma_k64_injective(a: Handle, b: Handle)
    requires
        k64(a) == k64(b),
    ensures
        a == b,
{
    assert(a.spec_key() == b.spec_key());
    Handle::lemma_key_injective(a, b);
}

/// A dense batch of per-instance payloads with O(1) add, update and
/// swap-with-last removal.
pub struct InstanceSet<T> {
    buffer: Vec<T>,
    keys: Vec<u64>,
    slot_of: HashMap<u64, usize>,
    capacity: usize,
}

impl<T> InstanceSet<T> {
    /// Internal consistency: `keys` names the owner of every occupied
    /// slot, `slot_of` is its exact inverse, and the occupied slots are
    /// the gapless range below `len`.
    pub closed spec fn wf(self) -> bool {
        &&& self.keys@.len() == self.buffer@.len()
        &&& self.buffer@.len() <= self.capacity
        &&& self.slot_of@.dom().len() == self.buffer@.len()
        &&& forall|k: u64|
            #[trigger] self.slot_of@.contains_key(k) ==> self.slot_of@[k] < self.buffer@.len()
                && self.keys@[self.slot_of@[k] as int] == k
        &&& forall|s: int|
            0 <= s < self.buffer@.len() ==> self.slot_of@.contains_key(#[trigger] self.keys@[s])
                && self.slot_of@[self.keys@[s]] == s
    }

    /// Number of live instances; also the draw range's upper bound.
    pub closed spec fn spec_len(self) -> nat {
        self.buffer@.len()
    }

    /// Current buffer capacity in payload slots.
    pub closed spec fn spec_capacity(self) -> nat {
        self.capacity as nat
    }

    /// The handle currently owns a slot in this batch.
    pub closed spec fn has(self, h: Handle) -> bool {
        self.slot_of@.contains_key(k64(h))
    }

    /// The slot a live handle's payload occupies.
    pub closed spec fn slot_index_of(self, h: Handle) -> nat
        recommends
            self.has(h),
    {
        self.slot_of@[k64(h)] as nat
    }

    /// The payload a live handle owns.
    pub closed spec fn value_of(self, h: Handle) -> T
        recommends
            self.has(h),
    {
        self.buffer@[self.slot_of@[k64(h)] as int]
    }

    /// The dense payload sequence, slots `0 .. len`.
    pub closed spec fn data_seq(self) -> Seq<T> {
        self.buffer@
    }

    /// The set of keys of the handles that currently own a slot.
    pub closed spec fn key_set(self) -> Set<u64> {
        self.slot_of@.dom()
    }

    /// Every live handle's slot lies below the instance count.
    pub proof fn lemma_slot_in_range(self, h: Handle)
        requires
            self.wf(),
            self.has(h),
        ensures
            self.slot_index_of(h) < self.spec_len(),
    {
    }

    /// Distinct live handles occupy distinct slots.
    pub proof fn lemma_slots_unique(self, h1: Handle, h2: Handle)
        requires
            self.wf(),
            self.has(h1),
            self.has(h2),
            h1 != h2,
        ensures
            self.slot_index_of(h1) != self.slot_index_of(h2),
    {
        if self.slot_index_of(h1) == self.slot_index_of(h2) {
            assert(self.keys@[self.slot_of@[k64(h1)] as int] == k64(h1));
            assert(self.keys@[self.slot_of@[k64(h2)] as int] == k64(h2));
            lemma_k64_injective(h1, h2);
        }
    }

    /// The instance count equals the number of live handle keys.
    pub proof fn lemma_len_is_live_handles(self)
        requires
            self.wf(),
        ensures
            self.spec_len() == self.key_set().len(),
            forall|h: Handle| #[trigger] self.has(h) == self.key_set().contains(k64(h)),
    {
    }

    /// The payload a live handle owns is the one stored at its slot.
    pub proof fn lemma_value_at_slot(self, h: Handle)
        requires
            self.wf(),
            self.has(h),
        ensures
            self.value_of(h) == self.data_seq()[self.slot_index_of(h) as int],
    {
    }

    /// An empty batch whose buffer holds `capacity` payload slots.
    pub fn new(capacity: usize) -> (s: Self)
        ensures
            s.wf(),
            s.spec_len() == 0,
            s.spec_capacity() == capacity,
            forall|h: Handle| !s.has(h),
    {
        let s = InstanceSet {
            buffer: Vec::new(),
            keys: Vec::new(),
            slot_of: HashMap::new(),
            capacity,
        };
        proof {
            assert(s.slot_of@.dom() =~= Set::<u64>::empty());
        }
        s
    }

    pub fn len(&self) -> (n: usize)
        ensures
            n == self.spec_len(),
    {
        self.buffer.len()
    }

    pub fn is_empty(&self) -> (b: bool)
        ensures
            b == (self.spec_len() == 0),
    {
        self.buffer.len() == 0
    }

    pub fn capacity(&self) -> (n: usize)
        ensures
            n == self.spec_capacity(),
    {
        self.capacity
    }

    /// The dense payload slots, `[0, len)`; what the renderer uploads and
    /// draws.
    pub fn data(&self) -> (d: &[T])
        ensures
            d@ == self.data_seq(),
    {
        self.buffer.as_slice()
    }

    /// Append a payload for a handle not yet in the batch: it takes the
    /// slot at the current count. Grows the capacity geometrically when
    /// the batch is full; existing slots are never disturbed.
    pub fn add(&mut self, h: Handle, data: T) -> (grew: bool)
        requires
            old(self).wf(),
            !old(self).has(h),
            old(self).spec_len() < usize::MAX,
        ensures
            final(self).wf(),
            final(self).has(h),
            final(self).value_of(h) == data,
            final(self).slot_index_of(h) == old(self).spec_len(),
            final(self).spec_len() == old(self).spec_len() + 1,
            final(self).data_seq() == old(self).data_seq().push(data),
            grew == (old(self).spec_len() == old(self).spec_capacity()),
            !grew ==> final(self).spec_capacity() == old(self).spec_capacity(),
            forall|h2: Handle| h2 != h ==> #[trigger] final(self).has(h2) == old(self).has(h2),
            forall|h2: Handle|
                old(self).has(h2) ==> #[trigger] final(self).value_of(h2) == old(self).value_of(
                    h2,
                ) && final(self).slot_index_of(h2) == old(self).slot_index_of(h2),
    {
        let grew = self.buffer.len() == self.capacity;
        if grew {
            self.capacity = if self.capacity == 0 {
                1
            } else if self.capacity <= usize::MAX / 2 {
                self.capacity * 2
            } else {
                usize::MAX
            };
        }
        let k = h.key();
        let slot = self.buffer.len();
        self.buffer.push(data);
        self.keys.push(k);
        self.slot_of.insert(k, slot);
        proof {
            assert forall|h2: Handle| h2 != h implies #[trigger] self.has(h2) == old(self).has(h2) by {
                if k64(h2) == k64(h) {
                    lemma_k64_injective(h2, h);
                }
            }
            assert(self.slot_of@.dom() =~= old(self).slot_of@.dom().insert(k));
        }
        grew
    }

    /// Whether the handle owns a slot here.
    pub fn contains(&self, h: Handle) -> (b: bool)
        ensures
            b == self.has(h),
    {
        self.slot_of.get(&h.key()).is_some()
    }

    /// Read a live handle's payload; nothing for a dead or foreign
    /// handle.
    pub fn get(&self, h: Handle) -> (r: Option<&T>)
        requires
            self.wf(),
        ensures
            match r {
                Some(v) => self.has(h) && *v == self.value_of(h),
                None => !self.has(h),
            },
    {
        match self.slot_of.get(&h.key()) {
            Some(slot) => Some(&self.buffer[*slot]),
            None => None,
        }
    }

    /// The slot a live handle's payload occupies.
    pub fn slot_index(&self, h: Handle) -> (r: Option<usize>)
        ensures
            match r {
                Some(s) => self.has(h) && s == self.slot_index_of(h),
                None => !self.has(h),
            },
    {
        match self.slot_of.get(&h.key()) {
            Some(slot) => Some(*slot),
            None => None,
        }
    }

    /// Overwrite a live handle's payload in place; its slot does not
    /// move and no other slot is touched.
    pub fn update(&mut self, h: Handle, data: T)
        requires
            old(self).wf(),
            old(self).has(h),
        ensures
            final(self).wf(),
            final(self).has(h),
            final(self).value_of(h) == data,
            final(self).slot_index_of(h) == old(self).slot_index_of(h),
            final(self).spec_len() == old(self).spec_len(),
            final(self).spec_capacity() == old(self).spec_capacity(),
            final(self).data_seq() == old(self).data_seq().update(
                old(self).slot_index_of(h) as int,
                data,
            ),
            forall|h2: Handle| #[trigger] final(self).has(h2) == old(self).has(h2),
            forall|h2: Handle|
                old(self).has(h2) ==> #[trigger] final(self).slot_index_of(h2) == old(
                    self,
                ).slot_index_of(h2),
            forall|h2: Handle|
                h2 != h && old(self).has(h2) ==> #[trigger] final(self).value_of(h2) == old(
                    self,
                ).value_of(h2),
    {
        let slot = *self.slot_of.get(&h.key()).unwrap();
        self.buffer[slot] = data;
        proof {
            assert forall|h2: Handle|
                h2 != h && old(self).has(h2) implies #[trigger] self.value_of(h2) == old(self).value_of(h2) by {
                if k64(h2) == k64(h) {
                    lemma_k64_injective(h2, h);
                }
            }
        }
    }

    /// Remove a live handle's payload. The freed slot is backfilled with
    /// the last occupied slot's payload (swap-with-last); every other
    /// slot keeps its position, so the occupied slots stay gapless.
    pub fn remove(&mut self, h: Handle)
        requires
            old(self).wf(),
            old(self).has(h),
        ensures
            final(self).wf(),
            !final(self).has(h),
            final(self).spec_len() == old(self).spec_len() - 1,
            final(self).spec_capacity() == old(self).spec_capacity(),
            forall|h2: Handle| h2 != h ==> #[trigger] final(self).has(h2) == old(self).has(h2),
            forall|h2: Handle|
                h2 != h && old(self).has(h2) ==> #[trigger] final(self).value_of(h2) == old(
                    self,
                ).value_of(h2) && final(self).slot_index_of(h2) == (
                if old(self).slot_index_of(h2) == old(self).spec_len() - 1 {
                    old(self).slot_index_of(h)
                } else {
                    old(self).slot_index_of(h2)
                }),
    {
        let k = h.key();
        let slot = *self.slot_of.get(&k).unwrap();
        self.slot_of.remove(&k);
        let last = self.buffer.len() - 1;
        if slot != last {
            let moved_key = self.keys[last];
            proof {
                assert(old(self).slot_of@.contains_key(old(self).keys@[last as int]));
                assert(moved_key != k);
            }
            self.slot_of.insert(moved_key, slot);
        }
        self.buffer.swap_remove(slot);
        self.keys.swap_remove(slot);
        proof {
            let oldm = old(self).slot_of@;
            let s = oldm[k64(h)] as int;
            let lasti = old(self).buffer@.len() - 1;
            assert(self.slot_of@.dom() =~= oldm.dom().remove(k64(h)));
            assert forall|h2: Handle| h2 != h implies #[trigger] self.has(h2) == old(self).has(h2) by {
                if k64(h2) == k64(h) {
                    lemma_k64_injective(h2, h);
                }
            }
            assert forall|h2: Handle| h2 != h && old(self).has(h2) implies #[trigger] self.value_of(h2)
                == old(self).value_of(h2) && self.slot_index_of(h2) == (
            if old(self).slot_index_of(h2) == old(self).spec_len() - 1 {
                old(self).slot_index_of(h)
            } else {
                old(self).slot_index_of(h2)
            }) by {
                if k64(h2) == k64(h) {
                    lemma_k64_injective(h2, h);
                }
            }
        }
    }
}

} // verus!
