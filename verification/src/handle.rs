//! Generation-checked handle table.
//!
//! An arena that issues stable handles (slot index plus generation).
//! Removing an entry bumps its slot's generation, so a handle issued
//! before the removal can never be mistaken for one issued after the slot
//! is reused: a removed handle stays dead forever (it is `stale`, and
//! staleness is preserved by every operation).

use vstd::prelude::*;

verus! {

/// A stable identity token: slot index plus the generation it was issued
/// with. Purely an identity; never arithmetic.
#[derive(Clone, Copy, Debug, PartialEq, Eq, Hash, Structural)]
pub struct Handle {
    pub index: u32,
    pub generation: u32,
}

impl Handle {
    /// The handle packed into one integer, for use as a map key.
    pub open spec fn spec_key(self) -> int {
        self.index * 0x1_0000_0000 + self.generation
    }

    /// Pack the handle into one integer key.
    pub fn key(self) -> (k: u64)
        ensures
            k == self.spec_key(),
    {
        (self.index as u64) * 0x1_0000_0000 + (self.generation as u64)
    }

    /// Distinct handles pack to distinct keys.
    pub proof fn lemma_key_injective(a: Handle, b: Handle)
        requires
            a.spec_key() == b.spec_key(),
        ensures
            a == b,
    {
        assert(a.index == b.index && a.generation == b.generation) by (nonlinear_arith)
            requires
                a.index * 0x1_0000_0000 + a.generation == b.index * 0x1_0000_0000 + b.generation,
                0 <= a.generation < 0x1_0000_0000,
                0 <= b.generation < 0x1_0000_0000,
                0 <= a.index,
                0 <= b.index,
        ;
    }
}

struct TableSlot<T> {
    generation: u32,
    value: Option<T>,
}

/// An arena of values addressed by generation-checked handles.
pub struct HandleTable<T> {
    slots: Vec<TableSlot<T>>,
    free: Vec<u32>,
}

impl<T> HandleTable<T> {
    /// Internal consistency: the free list names exactly the reusable
    /// slots, without duplicates, and occupied slots can still bump their
    /// generation.
    pub closed spec fn wf(self) -> bool {
        &&& forall|k: int|
            0 <= k < self.free@.len() ==> {
                &&& (#[trigger] self.free@[k]) < self.slots@.len()
                &&& self.slots@[self.free@[k] as int].value is None
                &&& self.slots@[self.free@[k] as int].generation < 0xFFFF_FFFFu32
            }
        &&& self.free@.no_duplicates()
        &&& self.slots@.len() <= 0xFFFF_FFFF
        &&& forall|i: int|
            0 <= i < self.slots@.len() && (#[trigger] self.slots@[i].value) is Some
                ==> self.slots@[i].generation < 0xFFFF_FFFFu32
    }

    /// The number of slots ever allocated (live or reusable).
    pub closed spec fn spec_slot_count(self) -> nat {
        self.slots@.len()
    }

    /// The handle currently addresses a value.
    pub closed spec fn live(self, h: Handle) -> bool {
        &&& (h.index as int) < self.slots@.len()
        &&& self.slots@[h.index as int].generation == h.generation
        &&& self.slots@[h.index as int].value is Some
    }

    /// The handle's slot has moved past its generation: the handle was
    /// removed (or never issued) and can never address a value again.
    pub closed spec fn stale(self, h: Handle) -> bool {
        &&& (h.index as int) < self.slots@.len()
        &&& h.generation < self.slots@[h.index as int].generation
    }

    /// The value a live handle addresses.
    pub closed spec fn value_of(self, h: Handle) -> T
        recommends
            self.live(h),
    {
        self.slots@[h.index as int].value->0
    }

    /// A handle is never both live and stale.
    pub proof fn lemma_stale_not_live(self, h: Handle)
        requires
            self.stale(h),
        ensures
            !self.live(h),
    {
    }

    /// At most one live handle addresses each slot.
    pub proof fn lemma_live_unique_at_index(self, h1: Handle, h2: Handle)
        requires
            self.live(h1),
            self.live(h2),
            h1.index == h2.index,
        ensures
            h1 == h2,
    {
    }

    /// A live handle's index lies below the slot count.
    pub proof fn lemma_live_index(self, h: Handle)
        requires
            self.live(h),
        ensures
            (h.index as nat) < self.spec_slot_count(),
    {
    }

    pub fn new() -> (t: Self)
        ensures
            t.wf(),
            t.spec_slot_count() == 0,
            forall|h: Handle| !t.live(h),
            forall|h: Handle| !t.stale(h),
    {
        HandleTable { slots: Vec::new(), free: Vec::new() }
    }

    pub fn slot_count(&self) -> (n: usize)
        ensures
            n == self.spec_slot_count(),
    {
        self.slots.len()
    }

    /// Store a value and issue a fresh handle for it. The handle is fresh
    /// in the strongest sense: it was neither live nor stale before, so it
    /// cannot alias any handle this table ever issued and then removed.
    pub fn insert(&mut self, value: T) -> (h: Handle)
        requires
            old(self).wf(),
            old(self).spec_slot_count() < 0xFFFF_FFFF,
        ensures
            final(self).wf(),
            final(self).live(h),
            final(self).value_of(h) == value,
            !old(self).live(h),
            !old(self).stale(h),
            final(self).spec_slot_count() <= old(self).spec_slot_count() + 1,
            forall|h2: Handle|
                h2 != h ==> #[trigger] final(self).live(h2) == old(self).live(h2),
            forall|h2: Handle|
                h2 != h && old(self).live(h2) ==> #[trigger] final(self).value_of(h2) == old(
                    self,
                ).value_of(h2),
            forall|h2: Handle| old(self).stale(h2) ==> #[trigger] final(self).stale(h2),
    {
        if let Some(index) = self.free.pop() {
            let i = index as usize;
            let slot = &mut self.slots[i];
            let generation = slot.generation;
            slot.value = Some(value);
            Handle { index, generation }
        } else {
            let index = self.slots.len() as u32;
            let generation: u32 = 0;
            self.slots.push(TableSlot { generation, value: Some(value) });
            Handle { index, generation }
        }
    }

    /// Read the value a handle addresses, or nothing if the handle is
    /// dead.
    pub fn get(&self, h: Handle) -> (r: Option<&T>)
        ensures
            match r {
                Some(v) => self.live(h) && *v == self.value_of(h),
                None => !self.live(h),
            },
    {
        let i = h.index as usize;
        if i < self.slots.len() {
            let slot = &self.slots[i];
            if slot.generation == h.generation {
                slot.value.as_ref()
            } else {
                None
            }
        } else {
            None
        }
    }

    /// Borrow the value a live handle addresses for mutation.
    pub fn get_mut(&mut self, h: Handle) -> (r: Option<&mut T>)
        requires
            old(self).wf(),
        ensures
            match r {
                Some(v) => {
                    &&& old(self).live(h)
                    &&& *v == old(self).value_of(h)
                    &&& final(self).wf()
                    &&& final(self).live(h)
                    &&& final(self).value_of(h) == *final(v)
                    &&& final(self).spec_slot_count() == old(self).spec_slot_count()
                    &&& forall|h2: Handle|
                        h2 != h ==> #[trigger] final(self).live(h2) == old(self).live(h2)
                    &&& forall|h2: Handle|
                        h2 != h && old(self).live(h2) ==> #[trigger] final(self).value_of(h2)
                            == old(self).value_of(h2)
                    &&& forall|h2: Handle|
                        #[trigger] final(self).stale(h2) == old(self).stale(h2)
                },
                None => !old(self).live(h) && *final(self) == *old(self),
            },
    {
        let i = h.index as usize;
        if i < self.slots.len() {
            if self.slots[i].generation == h.generation && self.slots[i].value.is_some() {
                let slot = &mut self.slots[i];
                return slot.value.as_mut();
            }
        }
        None
    }

    /// Remove the value a handle addresses and return it. The handle
    /// becomes stale: no later operation can ever make it live again.
    pub fn remove(&mut self, h: Handle) -> (r: Option<T>)
        requires
            old(self).wf(),
        ensures
            final(self).wf(),
            final(self).spec_slot_count() == old(self).spec_slot_count(),
            !final(self).live(h),
            match r {
                Some(v) => old(self).live(h) && v == old(self).value_of(h) && final(self).stale(
                    h,
                ),
                None => !old(self).live(h) && *final(self) == *old(self),
            },
            forall|h2: Handle|
                h2 != h ==> #[trigger] final(self).live(h2) == old(self).live(h2),
            forall|h2: Handle|
                h2 != h && old(self).live(h2) ==> #[trigger] final(self).value_of(h2) == old(
                    self,
                ).value_of(h2),
            forall|h2: Handle| old(self).stale(h2) ==> #[trigger] final(self).stale(h2),
    {
        let i = h.index as usize;
        if i < self.slots.len() {
            if self.slots[i].generation == h.generation && self.slots[i].value.is_some() {
                let slot = &mut self.slots[i];
                let taken = slot.value.take();
                let new_generation = slot.generation + 1;
                slot.generation = new_generation;
                if new_generation < 0xFFFF_FFFFu32 {
                    self.free.push(h.index);
                }
                return taken;
            }
        }
        None
    }

    /// The live handle whose slot index is `index`, if any.
    pub fn handle_at(&self, index: usize) -> (r: Option<Handle>)
        requires
            self.wf(),
        ensures
            match r {
                Some(h) => self.live(h) && h.index == index,
                None => forall|h: Handle| h.index == index ==> !self.live(h),
            },
    {
        if index < self.slots.len() {
            let slot = &self.slots[index];
            if slot.value.is_some() {
                Some(Handle { index: index as u32, generation: slot.generation })
            } else {
                None
            }
        } else {
            None
        }
    }
}

} // verus!
