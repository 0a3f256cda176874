//! Render scene: routes instance operations to the batch for their
//! (mesh, material) pair.
//!
//! Each instance belongs to exactly one batch — the one keyed by the
//! mesh and material it was created with — for its whole lifetime. The
//! scene records the pair per instance handle, so updates and removals
//! find the right batch without the caller re-supplying it. Batches are
//! created lazily the first time a pair is seen.

use vstd::prelude::*;
use crate::handle::{Handle, HandleTable};
use crate::instance_set::InstanceSet;
use crate::transform::Transform;

verus! {

/// Payload slots a fresh batch starts with.
pub const INSTANCE_SET_CAPACITY: usize = 1024;

/// An opaque identity for a mesh owned by the renderer; never inspected.
#[derive(Clone, Copy, Debug, PartialEq, Eq, Structural)]
pub struct MeshHandle {
    pub id: u64,
}

/// An opaque identity for a material owned by the renderer.
#[derive(Clone, Copy, Debug, PartialEq, Eq, Structural)]
pub struct MaterialHandle {
    pub id: u64,
}

/// The routing key of a batch: one mesh drawn with one material.
#[derive(Clone, Copy, Debug, PartialEq, Eq, Structural)]
pub struct InstanceType {
    pub mesh: MeshHandle,
    pub material: MaterialHandle,
}

/// All render instances of a scene, grouped into dense batches by
/// (mesh, material).
pub struct SceneRenderData {
    instance_map: HandleTable<InstanceType>,
    sets: Vec<(InstanceType, InstanceSet<Transform>)>,
}

impl SceneRenderData {
    /// Internal consistency: batch keys are unique, every live instance
    /// handle routes to the batch of its recorded key, and batches hold
    /// exactly the live handles recorded for them.
    pub closed spec fn wf(self) -> bool {
        &&& self.instance_map.wf()
        &&& forall|i: int| 0 <= i < self.sets@.len() ==> (#[trigger] self.sets@[i]).1.wf()
        &&& forall|i: int, j: int|
            0 <= i < j < self.sets@.len() ==> (#[trigger] self.sets@[i]).0 != (
            #[trigger] self.sets@[j]).0
        &&& forall|i: int, h: Handle|
            0 <= i < self.sets@.len() && (#[trigger] self.sets@[i].1.has(h)) ==> {
                &&& self.instance_map.live(h)
                &&& self.instance_map.value_of(h) == self.sets@[i].0
            }
        &&& forall|h: Handle|
            #[trigger] self.instance_map.live(h) ==> {
                &&& self.has_batch(self.instance_map.value_of(h))
                &&& self.sets@[self.batch_index_of(self.instance_map.value_of(h))].1.has(h)
            }
    }

    /// The handle names a live instance of this scene.
    pub closed spec fn has_instance(self, h: Handle) -> bool {
        self.instance_map.live(h)
    }

    /// The handle named an instance that was removed; it can never name
    /// one again.
    pub closed spec fn stale_instance(self, h: Handle) -> bool {
        self.instance_map.stale(h)
    }

    /// The (mesh, material) pair a live instance was created with.
    pub closed spec fn instance_type_of(self, h: Handle) -> InstanceType
        recommends
            self.has_instance(h),
    {
        self.instance_map.value_of(h)
    }

    /// The index of the batch keyed by `t`, if one exists.
    pub closed spec fn batch_index_of(self, t: InstanceType) -> int {
        choose|i: int| 0 <= i < self.sets@.len() && (#[trigger] self.sets@[i]).0 == t
    }

    /// A batch keyed by `t` exists.
    pub closed spec fn has_batch(self, t: InstanceType) -> bool {
        exists|i: int| 0 <= i < self.sets@.len() && (#[trigger] self.sets@[i]).0 == t
    }

    /// The transform a live instance currently carries in its batch.
    pub closed spec fn instance_transform(self, h: Handle) -> Transform
        recommends
            self.has_instance(h),
    {
        self.sets@[self.batch_index_of(self.instance_map.value_of(h))].1.value_of(h)
    }

    /// No more instances can be created for `t`: either the handle space
    /// or `t`'s batch is exhausted.
    pub closed spec fn at_capacity(self, t: InstanceType) -> bool {
        ||| self.instance_map.spec_slot_count() >= 0xFFFF_FFFF
        ||| (self.has_batch(t) && self.sets@[self.batch_index_of(t)].1.spec_len() >= usize::MAX)
    }

    pub closed spec fn spec_batch_count(self) -> nat {
        self.sets@.len()
    }

    /// With unique batch keys, the batch index of a key is the index of
    /// any entry carrying it.
    proof fn lemma_batch_index_is(self, t: InstanceType, j: int)
        requires
            0 <= j < self.sets@.len(),
            self.sets@[j].0 == t,
            forall|a: int, b: int|
                0 <= a < b < self.sets@.len() ==> (#[trigger] self.sets@[a]).0 != (
                #[trigger] self.sets@[b]).0,
        ensures
            self.has_batch(t),
            self.batch_index_of(t) == j,
    {
        assert(self.has_batch(t));
        let w = self.batch_index_of(t);
        assert(0 <= w < self.sets@.len() && self.sets@[w].0 == t);
        if w < j {
            assert(self.sets@[w].0 != self.sets@[j].0);
        } else if j < w {
            assert(self.sets@[j].0 != self.sets@[w].0);
        }
    }

    pub fn new() -> (s: Self)
        ensures
            s.wf(),
            s.spec_batch_count() == 0,
            forall|h: Handle| !s.has_instance(h),
            forall|h: Handle| !s.stale_instance(h),
    {
        SceneRenderData { instance_map: HandleTable::new(), sets: Vec::new() }
    }

    /// The batch index for a key, by linear search over the (few)
    /// batches.
    fn find_batch(&self, key: InstanceType) -> (r: Option<usize>)
        requires
            self.wf(),
        ensures
            match r {
                Some(i) => i < self.sets@.len() && self.sets@[i as int].0 == key
                    && i == self.batch_index_of(key) && self.has_batch(key),
                None => !self.has_batch(key),
            },
    {
        let mut i: usize = 0;
        while i < self.sets.len()
            invariant
                self.wf(),
                i <= self.sets@.len(),
                forall|j: int| 0 <= j < i ==> (#[trigger] self.sets@[j]).0 != key,
            decreases self.sets@.len() - i,
        {
            if self.sets[i].0 == key {
                proof {
                    self.lemma_batch_index_is(key, i as int);
                }
                return Some(i);
            }
            i = i + 1;
        }
        None
    }

    /// Create an instance of `mesh` drawn with `material` at `transform`.
    /// Returns its handle, or nothing exactly when the scene is at
    /// capacity for that pair; existing instances are never disturbed.
    pub fn create_instance(
        &mut self,
        mesh: MeshHandle,
        material: MaterialHandle,
        transform: &Transform,
    ) -> (r: Option<Handle>)
        requires
            old(self).wf(),
        ensures
            final(self).wf(),
            match r {
                Some(h) => {
                    &&& !old(self).at_capacity(InstanceType { mesh, material })
                    &&& !old(self).has_instance(h)
                    &&& !old(self).stale_instance(h)
                    &&& final(self).has_instance(h)
                    &&& final(self).instance_type_of(h) == (InstanceType { mesh, material })
                    &&& final(self).instance_transform(h) == *transform
                    &&& forall|h2: Handle|
                        h2 != h ==> #[trigger] final(self).has_instance(h2) == old(self).has_instance(h2)
                    &&& forall|h2: Handle|
                        h2 != h && old(self).has_instance(h2) ==> #[trigger] final(self).instance_type_of(h2) == old(self).instance_type_of(h2)
                    &&& forall|h2: Handle|
                        h2 != h && old(self).has_instance(h2) ==> #[trigger] final(self).instance_transform(h2) == old(self).instance_transform(h2)
                    &&& forall|h2: Handle|
                        old(self).stale_instance(h2) ==> #[trigger] final(self).stale_instance(h2)
                },
                None => old(self).at_capacity(InstanceType { mesh, material }) && *final(self)
                    == *old(self),
            },
    {
        let key = InstanceType { mesh, material };
        if self.instance_map.slot_count() >= 0xFFFF_FFFF {
            return None;
        }
        let found = self.find_batch(key);
        if let Some(i) = found {
            if self.sets[i].1.len() == usize::MAX {
                return None;
            }
            let h = self.instance_map.insert(key);
            let entry = &mut self.sets[i];
            proof {
                assert(!old(self).sets@[i as int].1.has(h));
            }
            entry.1.add(h, *transform);
            proof {
                self.prove_after_change(*old(self), h, i as int, key);
            }
            Some(h)
        } else {
            let h = self.instance_map.insert(key);
            let mut set = InstanceSet::<Transform>::new(INSTANCE_SET_CAPACITY);
            set.add(h, *transform);
            self.sets.push((key, set));
            proof {
                self.prove_after_change(*old(self), h, self.sets@.len() - 1, key);
            }
            Some(h)
        }
    }

    /// One batch (at `i`, keyed `key`) gained or kept the entry for `h`;
    /// everything else is untouched relative to `pre`. Re-establishes the
    /// scene invariant and the routing facts the public contracts state.
    proof fn prove_after_change(self, pre: SceneRenderData, h: Handle, i: int, key: InstanceType)
        requires
            pre.wf(),
            self.instance_map.wf(),
            0 <= i < self.sets@.len(),
            self.sets@.len() == pre.sets@.len() || (self.sets@.len() == pre.sets@.len() + 1 && i
                == pre.sets@.len() && !pre.has_batch(key)),
            forall|j: int|
                0 <= j < pre.sets@.len() ==> (#[trigger] self.sets@[j]).0 == pre.sets@[j].0,
            self.sets@[i].0 == key,
            forall|j: int| 0 <= j < self.sets@.len() ==> (#[trigger] self.sets@[j]).1.wf(),
            // the changed batch
            self.sets@[i].1.has(h),
            self.sets@[i].1.value_of(h) == self.instance_transform_raw(i, h),
            forall|h2: Handle|
                h2 != h ==> #[trigger] self.sets@[i].1.has(h2) == (i < pre.sets@.len()
                    && pre.sets@[i].1.has(h2)),
            forall|h2: Handle|
                h2 != h && i < pre.sets@.len() && pre.sets@[i].1.has(h2)
                    ==> #[trigger] self.sets@[i].1.value_of(h2) == pre.sets@[i].1.value_of(h2),
            // untouched batches
            forall|j: int|
                0 <= j < pre.sets@.len() && j != i ==> (#[trigger] self.sets@[j]).1
                    == pre.sets@[j].1,
            // the handle table: h freshly live, others carried over
            self.instance_map.live(h),
            self.instance_map.value_of(h) == key,
            !pre.instance_map.live(h),
            forall|h2: Handle|
                h2 != h ==> #[trigger] self.instance_map.live(h2) == pre.instance_map.live(h2),
            forall|h2: Handle|
                h2 != h && pre.instance_map.live(h2) ==> #[trigger] self.instance_map.value_of(h2)
                    == pre.instance_map.value_of(h2),
        ensures
            self.wf(),
            self.batch_index_of(key) == i,
            self.has_batch(key),
            self.instance_transform(h) == self.sets@[i].1.value_of(h),
            forall|h2: Handle|
                h2 != h && pre.has_instance(h2) ==> #[trigger] self.instance_type_of(h2)
                    == pre.instance_type_of(h2),
            forall|h2: Handle|
                h2 != h && pre.has_instance(h2) ==> #[trigger] self.instance_transform(h2)
                    == pre.instance_transform(h2),
    {
        assert forall|a: int, b: int|
            0 <= a < b < self.sets@.len() implies (#[trigger] self.sets@[a]).0 != (
        #[trigger] self.sets@[b]).0 by {
            if b < pre.sets@.len() {
                assert(pre.sets@[a].0 != pre.sets@[b].0);
            } else {
                // b == i is the appended batch; key is new
                assert(!pre.has_batch(key));
                assert(self.sets@[a].0 == pre.sets@[a].0);
                if self.sets@[a].0 == key {
                    assert(pre.has_batch(key));
                }
            }
        }
        self.lemma_batch_index_is(key, i);
        assert forall|j: int, h2: Handle|
            0 <= j < self.sets@.len() && (#[trigger] self.sets@[j].1.has(h2)) implies {
            &&& self.instance_map.live(h2)
            &&& self.instance_map.value_of(h2) == self.sets@[j].0
        } by {
            if j == i {
                if h2 != h {
                    assert(pre.sets@[i].1.has(h2));
                }
            } else {
                assert(pre.sets@[j].1.has(h2));
            }
        }
        assert forall|h2: Handle| #[trigger] self.instance_map.live(h2) implies {
            &&& self.has_batch(self.instance_map.value_of(h2))
            &&& self.sets@[self.batch_index_of(self.instance_map.value_of(h2))].1.has(h2)
        } by {
            if h2 == h {
                assert(self.batch_index_of(key) == i);
            } else {
                assert(pre.instance_map.live(h2));
                let t2 = pre.instance_map.value_of(h2);
                let j = pre.batch_index_of(t2);
                assert(pre.has_batch(t2));
                assert(0 <= j < pre.sets@.len() && pre.sets@[j].0 == t2);
                assert(pre.sets@[j].1.has(h2));
                self.lemma_batch_index_is(t2, j);
                if j == i {
                    assert(self.sets@[j].1.has(h2));
                } else {
                    assert(self.sets@[j].1 == pre.sets@[j].1);
                }
            }
        }
        assert forall|h2: Handle|
            h2 != h && pre.has_instance(h2) implies #[trigger] self.instance_transform(h2)
            == pre.instance_transform(h2) by {
            assert(pre.instance_map.live(h2));
            let t2 = pre.instance_map.value_of(h2);
            let j = pre.batch_index_of(t2);
            assert(pre.has_batch(t2));
            assert(0 <= j < pre.sets@.len() && pre.sets@[j].0 == t2);
            assert(pre.sets@[j].1.has(h2));
            self.lemma_batch_index_is(t2, j);
            if j == i {
                assert(self.sets@[j].1.value_of(h2) == pre.sets@[j].1.value_of(h2));
            } else {
                assert(self.sets@[j].1 == pre.sets@[j].1);
            }
        }
        assert forall|h2: Handle|
            h2 != h && pre.has_instance(h2) implies #[trigger] self.instance_type_of(h2)
            == pre.instance_type_of(h2) by {
            assert(pre.instance_map.live(h2));
        }
    }

    /// The payload batch `i` holds for `h`; proof-local shorthand.
    pub closed spec fn instance_transform_raw(self, i: int, h: Handle) -> Transform {
        self.sets@[i].1.value_of(h)
    }

    /// Overwrite a live instance's transform in place. Routing is by the
    /// pair recorded at creation; nothing else in the scene changes.
    pub fn update_instance(&mut self, key: Handle, transform: &Transform)
        requires
            old(self).wf(),
            old(self).has_instance(key),
        ensures
            final(self).wf(),
            final(self).has_instance(key),
            final(self).instance_type_of(key) == old(self).instance_type_of(key),
            final(self).instance_transform(key) == *transform,
            forall|h2: Handle|
                #[trigger] final(self).has_instance(h2) == old(self).has_instance(h2),
            forall|h2: Handle|
                h2 != key && old(self).has_instance(h2) ==> #[trigger] final(self).instance_type_of(h2) == old(self).instance_type_of(h2),
            forall|h2: Handle|
                h2 != key && old(self).has_instance(h2) ==> #[trigger] final(self).instance_transform(h2) == old(self).instance_transform(h2),
            forall|h2: Handle|
                #[trigger] final(self).stale_instance(h2) == old(self).stale_instance(h2),
    {
        let t = *self.instance_map.get(key).unwrap();
        proof {
            assert(old(self).has_batch(t));
            assert(old(self).sets@[old(self).batch_index_of(t)].1.has(key));
        }
        let i = self.find_batch(t).unwrap();
        let entry = &mut self.sets[i];
        entry.1.update(key, *transform);
        proof {
            self.prove_after_update(*old(self), key, i as int, t);
        }
    }

    /// Batch `i` updated the payload of `h` in place; nothing else moved.
    proof fn prove_after_update(self, pre: SceneRenderData, h: Handle, i: int, t: InstanceType)
        requires
            pre.wf(),
            self.instance_map == pre.instance_map,
            self.sets@.len() == pre.sets@.len(),
            0 <= i < self.sets@.len(),
            forall|j: int|
                0 <= j < pre.sets@.len() ==> (#[trigger] self.sets@[j]).0 == pre.sets@[j].0,
            forall|j: int|
                0 <= j < pre.sets@.len() && j != i ==> (#[trigger] self.sets@[j]).1
                    == pre.sets@[j].1,
            self.sets@[i].0 == t,
            self.sets@[i].1.wf(),
            pre.instance_map.live(h),
            pre.instance_map.value_of(h) == t,
            forall|h2: Handle| #[trigger] self.sets@[i].1.has(h2) == pre.sets@[i].1.has(h2),
            forall|h2: Handle|
                h2 != h && pre.sets@[i].1.has(h2) ==> #[trigger] self.sets@[i].1.value_of(h2)
                    == pre.sets@[i].1.value_of(h2),
        ensures
            self.wf(),
            self.batch_index_of(t) == i,
            self.instance_transform(h) == self.sets@[i].1.value_of(h),
            forall|h2: Handle|
                h2 != h && pre.has_instance(h2) ==> #[trigger] self.instance_type_of(h2)
                    == pre.instance_type_of(h2),
            forall|h2: Handle|
                h2 != h && pre.has_instance(h2) ==> #[trigger] self.instance_transform(h2)
                    == pre.instance_transform(h2),
    {
        assert forall|a: int, b: int|
            0 <= a < b < self.sets@.len() implies (#[trigger] self.sets@[a]).0 != (
        #[trigger] self.sets@[b]).0 by {
            assert(pre.sets@[a].0 != pre.sets@[b].0);
        }
        self.lemma_batch_index_is(t, i);
        assert forall|j: int, h2: Handle|
            0 <= j < self.sets@.len() && (#[trigger] self.sets@[j].1.has(h2)) implies {
            &&& self.instance_map.live(h2)
            &&& self.instance_map.value_of(h2) == self.sets@[j].0
        } by {
            if j == i {
                assert(pre.sets@[j].1.has(h2));
            } else {
                assert(pre.sets@[j].1.has(h2));
            }
        }
        assert forall|h2: Handle| #[trigger] self.instance_map.live(h2) implies {
            &&& self.has_batch(self.instance_map.value_of(h2))
            &&& self.sets@[self.batch_index_of(self.instance_map.value_of(h2))].1.has(h2)
        } by {
            let t2 = pre.instance_map.value_of(h2);
            let j = pre.batch_index_of(t2);
            assert(pre.instance_map.live(h2));
            assert(pre.has_batch(t2));
            assert(0 <= j < pre.sets@.len() && pre.sets@[j].0 == t2);
            assert(pre.sets@[j].1.has(h2));
            self.lemma_batch_index_is(t2, j);
            if j != i {
                assert(self.sets@[j].1 == pre.sets@[j].1);
            }
        }
        assert forall|h2: Handle|
            h2 != h && pre.has_instance(h2) implies #[trigger] self.instance_transform(h2)
            == pre.instance_transform(h2) by {
            let t2 = pre.instance_map.value_of(h2);
            let j = pre.batch_index_of(t2);
            assert(pre.instance_map.live(h2));
            assert(pre.has_batch(t2));
            assert(0 <= j < pre.sets@.len() && pre.sets@[j].0 == t2);
            assert(pre.sets@[j].1.has(h2));
            self.lemma_batch_index_is(t2, j);
            if j == i {
                assert(self.sets@[j].1.value_of(h2) == pre.sets@[j].1.value_of(h2));
            } else {
                assert(self.sets@[j].1 == pre.sets@[j].1);
            }
        }
        assert forall|h2: Handle|
            h2 != h && pre.has_instance(h2) implies #[trigger] self.instance_type_of(h2)
            == pre.instance_type_of(h2) by {
            assert(pre.instance_map.live(h2));
        }
    }

    /// Remove a live instance from its batch and retire its handle for
    /// good. No other instance's routing or transform is touched.
    pub fn remove_instance(&mut self, key: Handle)
        requires
            old(self).wf(),
            old(self).has_instance(key),
        ensures
            final(self).wf(),
            !final(self).has_instance(key),
            final(self).stale_instance(key),
            forall|h2: Handle|
                h2 != key ==> #[trigger] final(self).has_instance(h2) == old(self).has_instance(
                    h2,
                ),
            forall|h2: Handle|
                h2 != key && old(self).has_instance(h2) ==> #[trigger] final(self).instance_type_of(h2) == old(self).instance_type_of(h2),
            forall|h2: Handle|
                h2 != key && old(self).has_instance(h2) ==> #[trigger] final(self).instance_transform(h2) == old(self).instance_transform(h2),
            forall|h2: Handle|
                old(self).stale_instance(h2) ==> #[trigger] final(self).stale_instance(h2),
    {
        let t = *self.instance_map.get(key).unwrap();
        proof {
            assert(old(self).has_batch(t));
            assert(old(self).sets@[old(self).batch_index_of(t)].1.has(key));
        }
        let i = self.find_batch(t).unwrap();
        let entry = &mut self.sets[i];
        entry.1.remove(key);
        self.instance_map.remove(key);
        proof {
            let pre = *old(self);
            assert forall|a: int, b: int|
                0 <= a < b < self.sets@.len() implies (#[trigger] self.sets@[a]).0 != (
            #[trigger] self.sets@[b]).0 by {
                assert(pre.sets@[a].0 != pre.sets@[b].0);
            }
            self.lemma_batch_index_is(t, i as int);
            assert forall|j: int, h2: Handle|
                0 <= j < self.sets@.len() && (#[trigger] self.sets@[j].1.has(h2)) implies {
                &&& self.instance_map.live(h2)
                &&& self.instance_map.value_of(h2) == self.sets@[j].0
            } by {
                assert(pre.sets@[j].1.has(h2));
                if h2 == key {
                    if j == i as int {
                        assert(!self.sets@[j].1.has(h2));
                    } else {
                        assert(pre.instance_map.value_of(key) == pre.sets@[j].0);
                        pre.lemma_batch_index_is(t, j);
                    }
                }
            }
            assert forall|h2: Handle| #[trigger] self.instance_map.live(h2) implies {
                &&& self.has_batch(self.instance_map.value_of(h2))
                &&& self.sets@[self.batch_index_of(self.instance_map.value_of(h2))].1.has(h2)
            } by {
                assert(pre.instance_map.live(h2));
                assert(h2 != key);
                let t2 = pre.instance_map.value_of(h2);
                let j = pre.batch_index_of(t2);
                assert(pre.has_batch(t2));
                assert(0 <= j < pre.sets@.len() && pre.sets@[j].0 == t2);
                assert(pre.sets@[j].1.has(h2));
                self.lemma_batch_index_is(t2, j);
                if j != i as int {
                    assert(self.sets@[j].1 == pre.sets@[j].1);
                }
            }
            assert forall|h2: Handle|
                h2 != key && pre.has_instance(h2) implies #[trigger] self.instance_transform(h2)
                == pre.instance_transform(h2) by {
                let t2 = pre.instance_map.value_of(h2);
                let j = pre.batch_index_of(t2);
                assert(pre.instance_map.live(h2));
                assert(pre.has_batch(t2));
                assert(0 <= j < pre.sets@.len() && pre.sets@[j].0 == t2);
                assert(pre.sets@[j].1.has(h2));
                self.lemma_batch_index_is(t2, j);
                if j == i as int {
                    assert(self.sets@[j].1.value_of(h2) == pre.sets@[j].1.value_of(h2));
                } else {
                    assert(self.sets@[j].1 == pre.sets@[j].1);
                }
            }
            assert forall|h2: Handle|
                h2 != key && pre.has_instance(h2) implies #[trigger] self.instance_type_of(h2)
                == pre.instance_type_of(h2) by {
                assert(pre.instance_map.live(h2));
            }
        }
    }

    /// Whether the handle names a live instance.
    pub fn contains_instance(&self, key: Handle) -> (b: bool)
        ensures
            b == self.has_instance(key),
    {
        self.instance_map.get(key).is_some()
    }

    /// Read a live instance's current transform, or nothing for a dead
    /// handle.
    pub fn get_instance(&self, key: Handle) -> (r: Option<&Transform>)
        requires
            self.wf(),
        ensures
            match r {
                Some(t) => self.has_instance(key) && *t == self.instance_transform(key),
                None => !self.has_instance(key),
            },
    {
        match self.instance_map.get(key) {
            Some(t) => {
                let i = self.find_batch(*t).unwrap();
                proof {
                    assert(self.has_batch(*t));
                    assert(self.sets@[self.batch_index_of(*t)].1.has(key));
                }
                self.sets[i].1.get(key)
            },
            None => None,
        }
    }

    /// Number of batches (distinct (mesh, material) pairs seen).
    pub fn batch_count(&self) -> (n: usize)
        ensures
            n == self.spec_batch_count(),
    {
        self.sets.len()
    }

    /// The batch list as the renderer walks it.
    pub closed spec fn spec_batch_entry(self, i: int) -> (InstanceType, InstanceSet<Transform>) {
        self.sets@[i]
    }

    /// Read one batch and its key, for submission to the renderer.
    pub fn batch_entry(&self, i: usize) -> (r: &(InstanceType, InstanceSet<Transform>))
        requires
            i < self.spec_batch_count(),
        ensures
            *r == self.spec_batch_entry(i as int),
    {
        &self.sets[i]
    }
}

} // verus!
