//! Physics world: rigid bodies and colliders by handle, advanced one
//! timestep at a time.
//!
//! The world is the single owner of all physics state. Bodies carry a
//! pose and velocities in fixed point; `step_physics` integrates every
//! dynamic body with exact integer arithmetic (symplectic Euler for the
//! pose, a first-order quaternion delta for the orientation), saturating
//! at the world bounds. Every collider is parented to a live rigid body;
//! removing a body removes its colliders first, so no collider ever
//! dangles.

use vstd::prelude::*;
use crate::entity::RigidBodyType;
use crate::fixed::{spec_clamp_rot, spec_fx_mul, COORD_MAX, FX_ONE};
use crate::handle::{Handle, HandleTable};
use crate::math::{
    sq_bounded, sq_clamp, sq_mul, sv_add, sv_bounded, sv_clamp, sv_fx_scale, sv_zero, Q4, QuatFx,
    V3, Vec3Fx,
};

verus! {

/// The shape of a collider, in fixed-point dimensions.
#[derive(Clone, Copy, Debug, PartialEq, Eq, Structural)]
pub enum ColliderShape {
    Sphere(i64),
    Cuboid(Vec3Fx),
    Capsule(i64, i64),
    Cylinder(i64, i64),
    Mesh,
}

#[derive(Clone, Copy)]
struct RigidBody {
    body_type: RigidBodyType,
    position: Vec3Fx,
    rotation: QuatFx,
    linear_velocity: Vec3Fx,
    angular_velocity: Vec3Fx,
}

#[derive(Clone, Copy)]
struct ColliderData {
    parent: Handle,
    position: Vec3Fx,
    rotation: QuatFx,
    shape: ColliderShape,
    mass: i64,
}

/// New velocity after one step: the old one plus gravity over the step,
/// saturated at the world bounds.
pub open spec fn spec_step_velocity(v: V3, g: V3, dt: int) -> V3 {
    sv_clamp(sv_add(v, sv_fx_scale(g, dt)))
}

/// New position after one step: the old one plus the new velocity over
/// the step (symplectic Euler), saturated at the world bounds.
pub open spec fn spec_step_position(p: V3, v: V3, dt: int) -> V3 {
    sv_clamp(sv_add(p, sv_fx_scale(v, dt)))
}

/// First-order rotation increment for an angular velocity over half a
/// step, each component saturated at the rotation bounds.
pub open spec fn spec_rotation_delta(av: V3, dt: int) -> Q4 {
    Q4 {
        x: spec_clamp_rot(spec_fx_mul(av.x, dt / 2)),
        y: spec_clamp_rot(spec_fx_mul(av.y, dt / 2)),
        z: spec_clamp_rot(spec_fx_mul(av.z, dt / 2)),
        w: FX_ONE as int,
    }
}

/// New orientation after one step: the rotation increment applied on the
/// left, saturated.
pub open spec fn spec_step_rotation(r: Q4, av: V3, dt: int) -> Q4 {
    sq_clamp(sq_mul(spec_rotation_delta(av, dt), r))
}

/// A body at rest under zero gravity does not move: stepping keeps its
/// velocity, position and orientation exactly.
pub proof fn lemma_step_at_rest(p: V3, r: Q4, dt: int)
    requires
        sv_bounded(p, COORD_MAX as int),
        sq_bounded(r, crate::fixed::ROT_MAX as int),
        0 <= dt,
    ensures
        spec_step_velocity(sv_zero(), sv_zero(), dt) == sv_zero(),
        spec_step_position(p, sv_zero(), dt) == p,
        spec_step_rotation(r, sv_zero(), dt) == r,
{
    crate::fixed::lemma_fx_mul_zero(dt);
    crate::fixed::lemma_fx_mul_zero(dt / 2);
    assert(spec_rotation_delta(sv_zero(), dt) == crate::math::sq_identity());
    crate::math::lemma_sq_mul_identity_left(r);
    crate::math::lemma_sq_clamp_id(r);
    crate::math::lemma_sv_clamp_id(p);
    assert(sv_add(p, sv_fx_scale(sv_zero(), dt)) == p);
    assert(sv_add(sv_zero(), sv_fx_scale(sv_zero(), dt)) == sv_zero());
}

/// All rigid bodies and colliders of the simulation, with the gravity
/// they are stepped under.
pub struct PhysicsScene {
    rigid_body_set: HandleTable<RigidBody>,
    collider_set: HandleTable<ColliderData>,
    gravity: Vec3Fx,
}

impl PhysicsScene {
    /// Internal consistency: all stored quantities are inside the
    /// saturation bounds, and every live collider's parent body is live.
    pub closed spec fn wf(self) -> bool {
        &&& self.rigid_body_set.wf()
        &&& self.collider_set.wf()
        &&& sv_bounded(self.gravity@, COORD_MAX as int)
        &&& forall|h: Handle|
            #[trigger] self.rigid_body_set.live(h) ==> {
                let b = self.rigid_body_set.value_of(h);
                &&& sv_bounded(b.position@, COORD_MAX as int)
                &&& sq_bounded(b.rotation@, crate::fixed::ROT_MAX as int)
                &&& sv_bounded(b.linear_velocity@, COORD_MAX as int)
                &&& sv_bounded(b.angular_velocity@, COORD_MAX as int)
            }
        &&& forall|h: Handle|
            #[trigger] self.collider_set.live(h) ==> {
                let c = self.collider_set.value_of(h);
                &&& self.rigid_body_set.live(c.parent)
                &&& sv_bounded(c.position@, COORD_MAX as int)
                &&& sq_bounded(c.rotation@, crate::fixed::ROT_MAX as int)
            }
    }

    pub closed spec fn body_live(self, h: Handle) -> bool {
        self.rigid_body_set.live(h)
    }

    pub closed spec fn body_stale(self, h: Handle) -> bool {
        self.rigid_body_set.stale(h)
    }

    pub closed spec fn body_kind(self, h: Handle) -> RigidBodyType {
        self.rigid_body_set.value_of(h).body_type
    }

    pub closed spec fn body_position(self, h: Handle) -> V3 {
        self.rigid_body_set.value_of(h).position@
    }

    pub closed spec fn body_rotation(self, h: Handle) -> Q4 {
        self.rigid_body_set.value_of(h).rotation@
    }

    pub closed spec fn body_linear_velocity(self, h: Handle) -> V3 {
        self.rigid_body_set.value_of(h).linear_velocity@
    }

    pub closed spec fn body_angular_velocity(self, h: Handle) -> V3 {
        self.rigid_body_set.value_of(h).angular_velocity@
    }

    pub closed spec fn collider_live(self, h: Handle) -> bool {
        self.collider_set.live(h)
    }

    pub closed spec fn collider_stale(self, h: Handle) -> bool {
        self.collider_set.stale(h)
    }

    pub closed spec fn collider_parent(self, h: Handle) -> Handle {
        self.collider_set.value_of(h).parent
    }

    pub closed spec fn collider_position(self, h: Handle) -> V3 {
        self.collider_set.value_of(h).position@
    }

    pub closed spec fn collider_rotation(self, h: Handle) -> Q4 {
        self.collider_set.value_of(h).rotation@
    }

    pub closed spec fn spec_gravity(self) -> V3 {
        self.gravity@
    }

    /// A live collider's parent rigid body is live: colliders never
    /// dangle.
    pub proof fn lemma_collider_parent_live(self, h: Handle)
        requires
            self.wf(),
            self.collider_live(h),
        ensures
            self.body_live(self.collider_parent(h)),
    {
    }

    /// An empty world with zero gravity.
    pub fn new() -> (s: Self)
        ensures
            s.wf(),
            s.spec_gravity() == sv_zero(),
            s.spec_body_slot_count() == 0,
            s.spec_collider_slot_count() == 0,
            forall|h: Handle| !s.body_live(h) && !s.body_stale(h),
            forall|h: Handle| !s.collider_live(h) && !s.collider_stale(h),
    {
        PhysicsScene {
            rigid_body_set: HandleTable::new(),
            collider_set: HandleTable::new(),
            gravity: Vec3Fx::zero(),
        }
    }

    /// Supply the gravity vector used by every following step.
    pub fn set_gravity(&mut self, gravity: Vec3Fx)
        requires
            old(self).wf(),
            sv_bounded(gravity@, COORD_MAX as int),
        ensures
            final(self).wf(),
            final(self).spec_gravity() == gravity@,
            final(self).spec_body_slot_count() == old(self).spec_body_slot_count(),
            final(self).spec_collider_slot_count() == old(self).spec_collider_slot_count(),
            forall|h: Handle|
                #[trigger] final(self).body_live(h) == old(self).body_live(h) && final(self).body_stale(h) == old(self).body_stale(h),
            forall|h: Handle|
                old(self).body_live(h) ==> #[trigger] final(self).body_position(h) == old(self).body_position(h) && final(self).body_rotation(h) == old(self).body_rotation(h)
                    && final(self).body_linear_velocity(h) == old(self).body_linear_velocity(h)
                    && final(self).body_angular_velocity(h) == old(self).body_angular_velocity(h)
                    && final(self).body_kind(h) == old(self).body_kind(h),
            forall|h: Handle|
                #[trigger] final(self).collider_live(h) == old(self).collider_live(h),
    {
        self.gravity = gravity;
    }

    /// Create a rigid body at the given pose, at rest.
    pub fn create_rigid_body(
        &mut self,
        translation: Vec3Fx,
        rotation: QuatFx,
        body_type: RigidBodyType,
    ) -> (h: Handle)
        requires
            old(self).wf(),
            sv_bounded(translation@, COORD_MAX as int),
            sq_bounded(rotation@, crate::fixed::ROT_MAX as int),
            old(self).spec_body_slot_count() < 0xFFFF_FFFF,
        ensures
            final(self).wf(),
            final(self).body_live(h),
            !old(self).body_live(h),
            !old(self).body_stale(h),
            final(self).body_position(h) == translation@,
            final(self).body_rotation(h) == rotation@,
            final(self).body_linear_velocity(h) == sv_zero(),
            final(self).body_angular_velocity(h) == sv_zero(),
            final(self).body_kind(h) == body_type,
            final(self).spec_gravity() == old(self).spec_gravity(),
            final(self).spec_body_slot_count() <= old(self).spec_body_slot_count() + 1,
            final(self).spec_collider_slot_count() == old(self).spec_collider_slot_count(),
            forall|h2: Handle|
                h2 != h ==> #[trigger] final(self).body_live(h2) == old(self).body_live(h2),
            forall|h2: Handle|
                h2 != h && old(self).body_live(h2) ==> #[trigger] final(self).body_position(h2)
                    == old(self).body_position(h2),
            forall|h2: Handle|
                h2 != h && old(self).body_live(h2) ==> #[trigger] final(self).body_rotation(h2)
                    == old(self).body_rotation(h2),
            forall|h2: Handle|
                h2 != h && old(self).body_live(h2) ==> #[trigger] final(self).body_linear_velocity(
                    h2,
                ) == old(self).body_linear_velocity(h2),
            forall|h2: Handle|
                h2 != h && old(self).body_live(h2) ==> #[trigger] final(self).body_angular_velocity(h2) == old(self).body_angular_velocity(h2),
            forall|h2: Handle|
                h2 != h && old(self).body_live(h2) ==> #[trigger] final(self).body_kind(h2) == old(self).body_kind(h2),
            forall|h2: Handle| old(self).body_stale(h2) ==> #[trigger] final(self).body_stale(h2),
            forall|h2: Handle|
                #[trigger] final(self).collider_live(h2) == old(self).collider_live(h2),
            forall|h2: Handle|
                old(self).collider_live(h2) ==> #[trigger] final(self).collider_parent(h2) == old(self).collider_parent(h2),
            forall|h2: Handle|
                old(self).collider_live(h2) ==> #[trigger] final(self).collider_position(h2)
                    == old(self).collider_position(h2),
            forall|h2: Handle|
                old(self).collider_live(h2) ==> #[trigger] final(self).collider_rotation(h2)
                    == old(self).collider_rotation(h2),
            forall|h2: Handle|
                #[trigger] final(self).collider_stale(h2) == old(self).collider_stale(h2),
    {
        let body = RigidBody {
            body_type,
            position: translation,
            rotation,
            linear_velocity: Vec3Fx::zero(),
            angular_velocity: Vec3Fx::zero(),
        };
        self.rigid_body_set.insert(body)
    }

    /// Slots ever allocated for rigid bodies.
    pub closed spec fn spec_body_slot_count(self) -> nat {
        self.rigid_body_set.spec_slot_count()
    }

    /// Slots ever allocated for colliders.
    pub closed spec fn spec_collider_slot_count(self) -> nat {
        self.collider_set.spec_slot_count()
    }

    pub fn body_slot_count(&self) -> (n: usize)
        ensures
            n == self.spec_body_slot_count(),
    {
        self.rigid_body_set.slot_count()
    }

    pub fn collider_slot_count(&self) -> (n: usize)
        ensures
            n == self.spec_collider_slot_count(),
    {
        self.collider_set.slot_count()
    }

    /// Whether the handle names a live rigid body.
    pub fn contains_rigid_body(&self, handle: Handle) -> (b: bool)
        ensures
            b == self.body_live(handle),
    {
        self.rigid_body_set.get(handle).is_some()
    }

    /// Whether the handle names a live collider.
    pub fn contains_collider(&self, handle: Handle) -> (b: bool)
        ensures
            b == self.collider_live(handle),
    {
        self.collider_set.get(handle).is_some()
    }

    /// The pose of a live rigid body.
    pub fn get_rigid_body_transform(&self, handle: Handle) -> (r: (Vec3Fx, QuatFx))
        requires
            self.wf(),
            self.body_live(handle),
        ensures
            r.0@ == self.body_position(handle),
            r.1@ == self.body_rotation(handle),
            sv_bounded(r.0@, COORD_MAX as int),
            sq_bounded(r.1@, crate::fixed::ROT_MAX as int),
    {
        let body = self.rigid_body_set.get(handle).unwrap();
        (body.position, body.rotation)
    }

    /// Write a live rigid body's pose; a dead handle is ignored. The
    /// wake-up flag is advisory for an embedded solver; the model keeps
    /// no sleep state, so it changes nothing here.
    pub fn set_rigid_body_transform(
        &mut self,
        handle: Handle,
        translation: Vec3Fx,
        rotation: QuatFx,
        wake_up: bool,
    )
        requires
            old(self).wf(),
            sv_bounded(translation@, COORD_MAX as int),
            sq_bounded(rotation@, crate::fixed::ROT_MAX as int),
        ensures
            final(self).wf(),
            old(self).body_live(handle) ==> final(self).body_position(handle) == translation@
                && final(self).body_rotation(handle) == rotation@ && final(self).body_linear_velocity(handle) == old(self).body_linear_velocity(handle) && final(self).body_angular_velocity(handle) == old(self).body_angular_velocity(handle) && final(self).body_kind(handle) == old(self).body_kind(handle),
            !old(self).body_live(handle) ==> *final(self) == *old(self),
            final(self).spec_gravity() == old(self).spec_gravity(),
            final(self).spec_body_slot_count() == old(self).spec_body_slot_count(),
            final(self).spec_collider_slot_count() == old(self).spec_collider_slot_count(),
            forall|h2: Handle|
                #[trigger] final(self).body_live(h2) == old(self).body_live(h2),
            forall|h2: Handle|
                h2 != handle && old(self).body_live(h2) ==> #[trigger] final(self).body_position(
                    h2,
                ) == old(self).body_position(h2),
            forall|h2: Handle|
                h2 != handle && old(self).body_live(h2) ==> #[trigger] final(self).body_rotation(
                    h2,
                ) == old(self).body_rotation(h2),
            forall|h2: Handle|
                h2 != handle && old(self).body_live(h2) ==> #[trigger] final(self).body_linear_velocity(h2) == old(self).body_linear_velocity(h2),
            forall|h2: Handle|
                h2 != handle && old(self).body_live(h2) ==> #[trigger] final(self).body_angular_velocity(h2) == old(self).body_angular_velocity(h2),
            forall|h2: Handle|
                h2 != handle && old(self).body_live(h2) ==> #[trigger] final(self).body_kind(h2)
                    == old(self).body_kind(h2),
            forall|h2: Handle| #[trigger] final(self).body_stale(h2) == old(self).body_stale(h2),
            forall|h2: Handle|
                #[trigger] final(self).collider_live(h2) == old(self).collider_live(h2),
            forall|h2: Handle|
                old(self).collider_live(h2) ==> #[trigger] final(self).collider_parent(h2) == old(self).collider_parent(h2),
            forall|h2: Handle|
                old(self).collider_live(h2) ==> #[trigger] final(self).collider_position(h2)
                    == old(self).collider_position(h2),
            forall|h2: Handle|
                old(self).collider_live(h2) ==> #[trigger] final(self).collider_rotation(h2)
                    == old(self).collider_rotation(h2),
            forall|h2: Handle|
                #[trigger] final(self).collider_stale(h2) == old(self).collider_stale(h2),
    {
        let _ = wake_up;
        match self.rigid_body_set.get_mut(handle) {
            Some(body) => {
                body.position = translation;
                body.rotation = rotation;
            },
            None => {},
        }
    }

    /// Write a live rigid body's angular velocity; the body must be
    /// live.
    pub fn set_rigid_body_angular_velocity(&mut self, handle: Handle, angular_velocity: Vec3Fx)
        requires
            old(self).wf(),
            old(self).body_live(handle),
            sv_bounded(angular_velocity@, COORD_MAX as int),
        ensures
            final(self).wf(),
            final(self).body_angular_velocity(handle) == angular_velocity@,
            final(self).body_position(handle) == old(self).body_position(handle),
            final(self).body_rotation(handle) == old(self).body_rotation(handle),
            final(self).body_linear_velocity(handle) == old(self).body_linear_velocity(handle),
            final(self).body_kind(handle) == old(self).body_kind(handle),
            final(self).spec_gravity() == old(self).spec_gravity(),
            final(self).spec_body_slot_count() == old(self).spec_body_slot_count(),
            final(self).spec_collider_slot_count() == old(self).spec_collider_slot_count(),
            forall|h2: Handle|
                #[trigger] final(self).body_live(h2) == old(self).body_live(h2),
            forall|h2: Handle|
                h2 != handle && old(self).body_live(h2) ==> #[trigger] final(self).body_position(
                    h2,
                ) == old(self).body_position(h2),
            forall|h2: Handle|
                h2 != handle && old(self).body_live(h2) ==> #[trigger] final(self).body_rotation(
                    h2,
                ) == old(self).body_rotation(h2),
            forall|h2: Handle|
                h2 != handle && old(self).body_live(h2) ==> #[trigger] final(self).body_linear_velocity(h2) == old(self).body_linear_velocity(h2),
            forall|h2: Handle|
                h2 != handle && old(self).body_live(h2) ==> #[trigger] final(self).body_angular_velocity(h2) == old(self).body_angular_velocity(h2),
            forall|h2: Handle|
                h2 != handle && old(self).body_live(h2) ==> #[trigger] final(self).body_kind(h2)
                    == old(self).body_kind(h2),
            forall|h2: Handle| #[trigger] final(self).body_stale(h2) == old(self).body_stale(h2),
            forall|h2: Handle|
                #[trigger] final(self).collider_live(h2) == old(self).collider_live(h2),
            forall|h2: Handle|
                old(self).collider_live(h2) ==> #[trigger] final(self).collider_parent(h2) == old(self).collider_parent(h2),
            forall|h2: Handle|
                old(self).collider_live(h2) ==> #[trigger] final(self).collider_position(h2)
                    == old(self).collider_position(h2),
            forall|h2: Handle|
                old(self).collider_live(h2) ==> #[trigger] final(self).collider_rotation(h2)
                    == old(self).collider_rotation(h2),
            forall|h2: Handle|
                #[trigger] final(self).collider_stale(h2) == old(self).collider_stale(h2),
    {
        match self.rigid_body_set.get_mut(handle) {
            Some(body) => {
                body.angular_velocity = angular_velocity;
            },
            None => {},
        }
    }

    pub closed spec fn collider_shape(self, h: Handle) -> ColliderShape {
        self.collider_set.value_of(h).shape
    }

    pub closed spec fn collider_mass(self, h: Handle) -> int {
        self.collider_set.value_of(h).mass as int
    }

    /// Attach a collider to a live rigid body, at the given transform.
    pub fn create_collider(
        &mut self,
        parent_handle: Handle,
        translation: Vec3Fx,
        rotation: QuatFx,
        shape: &ColliderShape,
        mass: i64,
    ) -> (h: Handle)
        requires
            old(self).wf(),
            old(self).body_live(parent_handle),
            sv_bounded(translation@, COORD_MAX as int),
            sq_bounded(rotation@, crate::fixed::ROT_MAX as int),
            0 <= mass,
            old(self).spec_collider_slot_count() < 0xFFFF_FFFF,
        ensures
            final(self).wf(),
            final(self).collider_live(h),
            !old(self).collider_live(h),
            !old(self).collider_stale(h),
            final(self).collider_parent(h) == parent_handle,
            final(self).collider_position(h) == translation@,
            final(self).collider_rotation(h) == rotation@,
            final(self).collider_shape(h) == *shape,
            final(self).collider_mass(h) == mass,
            final(self).spec_gravity() == old(self).spec_gravity(),
            final(self).spec_body_slot_count() == old(self).spec_body_slot_count(),
            final(self).spec_collider_slot_count() <= old(self).spec_collider_slot_count() + 1,
            forall|h2: Handle| #[trigger] final(self).body_live(h2) == old(self).body_live(h2),
            forall|h2: Handle| #[trigger] final(self).body_stale(h2) == old(self).body_stale(h2),
            forall|h2: Handle|
                old(self).body_live(h2) ==> #[trigger] final(self).body_position(h2) == old(self).body_position(h2),
            forall|h2: Handle|
                old(self).body_live(h2) ==> #[trigger] final(self).body_rotation(h2) == old(self).body_rotation(h2),
            forall|h2: Handle|
                old(self).body_live(h2) ==> #[trigger] final(self).body_linear_velocity(h2) == old(self).body_linear_velocity(h2),
            forall|h2: Handle|
                old(self).body_live(h2) ==> #[trigger] final(self).body_angular_velocity(h2)
                    == old(self).body_angular_velocity(h2),
            forall|h2: Handle|
                old(self).body_live(h2) ==> #[trigger] final(self).body_kind(h2) == old(self).body_kind(h2),
            forall|h2: Handle|
                h2 != h ==> #[trigger] final(self).collider_live(h2) == old(self).collider_live(h2),
            forall|h2: Handle|
                h2 != h && old(self).collider_live(h2) ==> #[trigger] final(self).collider_parent(
                    h2,
                ) == old(self).collider_parent(h2),
            forall|h2: Handle|
                h2 != h && old(self).collider_live(h2) ==> #[trigger] final(self).collider_position(h2) == old(self).collider_position(h2),
            forall|h2: Handle|
                h2 != h && old(self).collider_live(h2) ==> #[trigger] final(self).collider_rotation(h2) == old(self).collider_rotation(h2),
            forall|h2: Handle|
                old(self).collider_stale(h2) ==> #[trigger] final(self).collider_stale(h2),
    {
        let collider = ColliderData {
            parent: parent_handle,
            position: translation,
            rotation,
            shape: *shape,
            mass,
        };
        self.collider_set.insert(collider)
    }

    /// Detach and drop a collider; a dead handle is ignored.
    pub fn remove_collider(&mut self, handle: Handle)
        requires
            old(self).wf(),
        ensures
            final(self).wf(),
            !final(self).collider_live(handle),
            old(self).collider_live(handle) ==> final(self).collider_stale(handle),
            final(self).spec_gravity() == old(self).spec_gravity(),
            final(self).spec_body_slot_count() == old(self).spec_body_slot_count(),
            final(self).spec_collider_slot_count() == old(self).spec_collider_slot_count(),
            forall|h2: Handle| #[trigger] final(self).body_live(h2) == old(self).body_live(h2),
            forall|h2: Handle| #[trigger] final(self).body_stale(h2) == old(self).body_stale(h2),
            forall|h2: Handle|
                old(self).body_live(h2) ==> #[trigger] final(self).body_position(h2) == old(self).body_position(h2),
            forall|h2: Handle|
                old(self).body_live(h2) ==> #[trigger] final(self).body_rotation(h2) == old(self).body_rotation(h2),
            forall|h2: Handle|
                old(self).body_live(h2) ==> #[trigger] final(self).body_linear_velocity(h2) == old(self).body_linear_velocity(h2),
            forall|h2: Handle|
                old(self).body_live(h2) ==> #[trigger] final(self).body_angular_velocity(h2)
                    == old(self).body_angular_velocity(h2),
            forall|h2: Handle|
                old(self).body_live(h2) ==> #[trigger] final(self).body_kind(h2) == old(self).body_kind(h2),
            forall|h2: Handle|
                h2 != handle ==> #[trigger] final(self).collider_live(h2) == old(self).collider_live(h2),
            forall|h2: Handle|
                h2 != handle && old(self).collider_live(h2) ==> #[trigger] final(self).collider_parent(h2) == old(self).collider_parent(h2),
            forall|h2: Handle|
                h2 != handle && old(self).collider_live(h2) ==> #[trigger] final(self).collider_position(h2) == old(self).collider_position(h2),
            forall|h2: Handle|
                h2 != handle && old(self).collider_live(h2) ==> #[trigger] final(self).collider_rotation(h2) == old(self).collider_rotation(h2),
            forall|h2: Handle|
                old(self).collider_stale(h2) ==> #[trigger] final(self).collider_stale(h2),
    {
        let _ = self.collider_set.remove(handle);
    }

    /// The world transform last written for a live collider.
    pub fn get_collider_transform(&self, handle: Handle) -> (r: (Vec3Fx, QuatFx))
        requires
            self.wf(),
            self.collider_live(handle),
        ensures
            r.0@ == self.collider_position(handle),
            r.1@ == self.collider_rotation(handle),
            sv_bounded(r.0@, COORD_MAX as int),
            sq_bounded(r.1@, crate::fixed::ROT_MAX as int),
    {
        let c = self.collider_set.get(handle).unwrap();
        (c.position, c.rotation)
    }

    /// Write a live collider's world transform; a dead handle is
    /// ignored.
    pub fn set_collider_transform(&mut self, handle: Handle, translation: Vec3Fx, rotation: QuatFx)
        requires
            old(self).wf(),
            sv_bounded(translation@, COORD_MAX as int),
            sq_bounded(rotation@, crate::fixed::ROT_MAX as int),
        ensures
            final(self).wf(),
            old(self).collider_live(handle) ==> final(self).collider_position(handle) == translation@
                && final(self).collider_rotation(handle) == rotation@
                && final(self).collider_parent(handle) == old(self).collider_parent(handle)
                && final(self).collider_shape(handle) == old(self).collider_shape(handle)
                && final(self).collider_mass(handle) == old(self).collider_mass(handle),
            !old(self).collider_live(handle) ==> *final(self) == *old(self),
            final(self).spec_gravity() == old(self).spec_gravity(),
            final(self).spec_body_slot_count() == old(self).spec_body_slot_count(),
            final(self).spec_collider_slot_count() == old(self).spec_collider_slot_count(),
            forall|h2: Handle| #[trigger] final(self).body_live(h2) == old(self).body_live(h2),
            forall|h2: Handle| #[trigger] final(self).body_stale(h2) == old(self).body_stale(h2),
            forall|h2: Handle|
                old(self).body_live(h2) ==> #[trigger] final(self).body_position(h2) == old(self).body_position(h2),
            forall|h2: Handle|
                old(self).body_live(h2) ==> #[trigger] final(self).body_rotation(h2) == old(self).body_rotation(h2),
            forall|h2: Handle|
                old(self).body_live(h2) ==> #[trigger] final(self).body_linear_velocity(h2) == old(self).body_linear_velocity(h2),
            forall|h2: Handle|
                old(self).body_live(h2) ==> #[trigger] final(self).body_angular_velocity(h2)
                    == old(self).body_angular_velocity(h2),
            forall|h2: Handle|
                old(self).body_live(h2) ==> #[trigger] final(self).body_kind(h2) == old(self).body_kind(h2),
            forall|h2: Handle| #[trigger] final(self).collider_live(h2) == old(self).collider_live(h2),
            forall|h2: Handle|
                h2 != handle && old(self).collider_live(h2) ==> #[trigger] final(self).collider_parent(h2) == old(self).collider_parent(h2),
            forall|h2: Handle|
                h2 != handle && old(self).collider_live(h2) ==> #[trigger] final(self).collider_position(h2) == old(self).collider_position(h2),
            forall|h2: Handle|
                h2 != handle && old(self).collider_live(h2) ==> #[trigger] final(self).collider_rotation(h2) == old(self).collider_rotation(h2),
            forall|h2: Handle| #[trigger] final(self).collider_stale(h2) == old(self).collider_stale(h2),
    {
        match self.collider_set.get_mut(handle) {
            Some(c) => {
                c.position = translation;
                c.rotation = rotation;
            },
            None => {},
        }
    }

    /// Remove a rigid body, detaching and removing every collider
    /// parented to it first, so no collider is left dangling. A dead
    /// handle is ignored.
    pub fn remove_rigid_body(&mut self, handle: Handle)
        requires
            old(self).wf(),
        ensures
            final(self).wf(),
            !final(self).body_live(handle),
            old(self).body_live(handle) ==> final(self).body_stale(handle),
            final(self).spec_gravity() == old(self).spec_gravity(),
            final(self).spec_body_slot_count() == old(self).spec_body_slot_count(),
            final(self).spec_collider_slot_count() == old(self).spec_collider_slot_count(),
            forall|h2: Handle|
                h2 != handle ==> #[trigger] final(self).body_live(h2) == old(self).body_live(h2),
            forall|h2: Handle|
                h2 != handle && old(self).body_live(h2) ==> #[trigger] final(self).body_position(
                    h2,
                ) == old(self).body_position(h2),
            forall|h2: Handle|
                h2 != handle && old(self).body_live(h2) ==> #[trigger] final(self).body_rotation(
                    h2,
                ) == old(self).body_rotation(h2),
            forall|h2: Handle|
                h2 != handle && old(self).body_live(h2) ==> #[trigger] final(self).body_linear_velocity(h2) == old(self).body_linear_velocity(h2),
            forall|h2: Handle|
                h2 != handle && old(self).body_live(h2) ==> #[trigger] final(self).body_angular_velocity(h2) == old(self).body_angular_velocity(h2),
            forall|h2: Handle|
                h2 != handle && old(self).body_live(h2) ==> #[trigger] final(self).body_kind(h2)
                    == old(self).body_kind(h2),
            forall|h2: Handle| old(self).body_stale(h2) ==> #[trigger] final(self).body_stale(h2),
            forall|hc: Handle|
                #[trigger] final(self).collider_live(hc) == (old(self).collider_live(hc)
                    && old(self).collider_parent(hc) != handle),
            forall|hc: Handle|
                old(self).collider_live(hc) && old(self).collider_parent(hc) != handle
                    ==> #[trigger] final(self).collider_parent(hc) == old(self).collider_parent(
                    hc,
                ),
            forall|hc: Handle|
                old(self).collider_live(hc) && old(self).collider_parent(hc) != handle
                    ==> #[trigger] final(self).collider_position(hc) == old(self).collider_position(hc),
            forall|hc: Handle|
                old(self).collider_live(hc) && old(self).collider_parent(hc) != handle
                    ==> #[trigger] final(self).collider_rotation(hc) == old(self).collider_rotation(hc),
            forall|hc: Handle|
                old(self).collider_live(hc) && old(self).collider_parent(hc) == handle
                    ==> #[trigger] final(self).collider_stale(hc),
            forall|hc: Handle|
                old(self).collider_stale(hc) ==> #[trigger] final(self).collider_stale(hc),
    {
        let n = self.collider_set.slot_count();
        let mut i: usize = 0;
        while i < n
            invariant
                i <= n,
                n == self.collider_set.spec_slot_count(),
                n == old(self).collider_set.spec_slot_count(),
                self.collider_set.wf(),
                self.rigid_body_set == old(self).rigid_body_set,
                self.gravity == old(self).gravity,
                forall|hc: Handle|
                    #[trigger] self.collider_set.live(hc) == (old(self).collider_set.live(hc) && (
                    old(self).collider_set.value_of(hc).parent != handle || hc.index as int >= i)),
                forall|hc: Handle|
                    self.collider_set.live(hc) ==> #[trigger] self.collider_set.value_of(hc)
                        == old(self).collider_set.value_of(hc),
                forall|hc: Handle|
                    old(self).collider_set.stale(hc) ==> #[trigger] self.collider_set.stale(hc),
                forall|hc: Handle|
                    old(self).collider_set.live(hc) && old(self).collider_set.value_of(hc).parent
                        == handle && (hc.index as int) < i ==> #[trigger] self.collider_set.stale(
                        hc,
                    ),
            decreases n - i,
        {
            match self.collider_set.handle_at(i) {
                Some(hc) => {
                    let parent = self.collider_set.get(hc).unwrap().parent;
                    if parent == handle {
                        let ghost pre = *self;
                        let _ = self.collider_set.remove(hc);
                        proof {
                            assert forall|hc2: Handle|
                                #[trigger] self.collider_set.live(hc2) == (old(self).collider_set.live(hc2) && (old(self).collider_set.value_of(
                                hc2,
                            ).parent != handle || hc2.index as int >= i + 1)) by {
                                if hc2.index as int == i as int {
                                    if self.collider_set.live(hc2) {
                                        assert(pre.collider_set.live(hc2));
                                        pre.collider_set.lemma_live_unique_at_index(hc2, hc);
                                    } else if hc2 != hc && old(self).collider_set.live(hc2) {
                                        assert(pre.collider_set.live(hc2));
                                        pre.collider_set.lemma_live_unique_at_index(hc2, hc);
                                    }
                                }
                            }
                            assert forall|hc2: Handle|
                                old(self).collider_set.live(hc2) && old(self).collider_set.value_of(hc2).parent == handle && (hc2.index as int) < i
                                + 1 implies #[trigger] self.collider_set.stale(hc2) by {
                                if hc2.index as int == i as int {
                                    assert(pre.collider_set.live(hc2));
                                    pre.collider_set.lemma_live_unique_at_index(hc2, hc);
                                }
                            }
                        }
                    } else {
                        proof {
                            assert forall|hc2: Handle|
                                #[trigger] self.collider_set.live(hc2) == (old(self).collider_set.live(hc2) && (old(self).collider_set.value_of(
                                hc2,
                            ).parent != handle || hc2.index as int >= i + 1)) by {
                                if hc2.index as int == i as int && self.collider_set.live(hc2) {
                                    self.collider_set.lemma_live_unique_at_index(hc2, hc);
                                }
                            }
                            assert forall|hc2: Handle|
                                old(self).collider_set.live(hc2) && old(self).collider_set.value_of(hc2).parent == handle && (hc2.index as int) < i
                                + 1 implies #[trigger] self.collider_set.stale(hc2) by {
                                if hc2.index as int == i as int {
                                    self.collider_set.lemma_live_unique_at_index(hc2, hc);
                                }
                            }
                        }
                    }
                },
                None => {
                    proof {
                        assert forall|hc2: Handle|
                            old(self).collider_set.live(hc2) && old(self).collider_set.value_of(
                            hc2,
                        ).parent == handle && (hc2.index as int) < i + 1
                            implies #[trigger] self.collider_set.stale(hc2) by {
                            if hc2.index as int == i as int {
                                assert(!self.collider_set.live(hc2));
                            }
                        }
                    }
                },
            }
            i = i + 1;
        }
        let _ = self.rigid_body_set.remove(handle);
        proof {
            assert forall|hc: Handle|
                old(self).collider_live(hc) && old(self).collider_parent(hc) == handle
                    implies #[trigger] self.collider_set.stale(hc) by {
                old(self).collider_set.lemma_live_index(hc);
            }
            assert forall|hc: Handle|
                #[trigger] self.collider_set.live(hc) implies self.rigid_body_set.live(
                self.collider_set.value_of(hc).parent,
            ) by {
                self.collider_set.lemma_live_index(hc);
                assert(old(self).collider_set.live(hc));
                assert(old(self).rigid_body_set.live(old(self).collider_set.value_of(hc).parent));
                assert(self.collider_set.value_of(hc).parent != handle);
            }
        }
    }

    /// Whether this body is stepped by the integrator.
    spec fn body_bounded(b: RigidBody) -> bool {
        &&& sv_bounded(b.position@, COORD_MAX as int)
        &&& sq_bounded(b.rotation@, crate::fixed::ROT_MAX as int)
        &&& sv_bounded(b.linear_velocity@, COORD_MAX as int)
        &&& sv_bounded(b.angular_velocity@, COORD_MAX as int)
    }

    /// How one step transforms a stored body.
    spec fn body_stepped(ob: RigidBody, nb: RigidBody, g: V3, dt: int) -> bool {
        if ob.body_type is Dynamic {
            &&& nb.body_type == ob.body_type
            &&& nb.angular_velocity == ob.angular_velocity
            &&& nb.linear_velocity@ == spec_step_velocity(ob.linear_velocity@, g, dt)
            &&& nb.position@ == spec_step_position(
                ob.position@,
                spec_step_velocity(ob.linear_velocity@, g, dt),
                dt,
            )
            &&& nb.rotation@ == spec_step_rotation(ob.rotation@, ob.angular_velocity@, dt)
        } else {
            nb == ob
        }
    }

    /// Advance every dynamic body by one timestep of `delta_time`
    /// (16.16 seconds): velocity picks up gravity, position integrates
    /// the new velocity, orientation turns by the angular velocity.
    /// Static and kinematic bodies, colliders and handles are untouched.
    pub fn step_physics(&mut self, delta_time: i64)
        requires
            old(self).wf(),
            0 <= delta_time <= COORD_MAX,
        ensures
            final(self).wf(),
            final(self).spec_gravity() == old(self).spec_gravity(),
            final(self).spec_body_slot_count() == old(self).spec_body_slot_count(),
            final(self).spec_collider_slot_count() == old(self).spec_collider_slot_count(),
            forall|h: Handle| #[trigger] final(self).body_live(h) == old(self).body_live(h),
            forall|h: Handle| #[trigger] final(self).body_stale(h) == old(self).body_stale(h),
            forall|h: Handle|
                old(self).body_live(h) ==> #[trigger] final(self).body_kind(h) == old(self).body_kind(h),
            forall|h: Handle|
                old(self).body_live(h) ==> #[trigger] final(self).body_angular_velocity(h)
                    == old(self).body_angular_velocity(h),
            forall|h: Handle|
                old(self).body_live(h) && old(self).body_kind(h) is Dynamic
                    ==> #[trigger] final(self).body_linear_velocity(h) == spec_step_velocity(
                    old(self).body_linear_velocity(h),
                    old(self).spec_gravity(),
                    delta_time as int,
                ),
            forall|h: Handle|
                old(self).body_live(h) && old(self).body_kind(h) is Dynamic
                    ==> #[trigger] final(self).body_position(h) == spec_step_position(
                    old(self).body_position(h),
                    spec_step_velocity(
                        old(self).body_linear_velocity(h),
                        old(self).spec_gravity(),
                        delta_time as int,
                    ),
                    delta_time as int,
                ),
            forall|h: Handle|
                old(self).body_live(h) && old(self).body_kind(h) is Dynamic
                    ==> #[trigger] final(self).body_rotation(h) == spec_step_rotation(
                    old(self).body_rotation(h),
                    old(self).body_angular_velocity(h),
                    delta_time as int,
                ),
            forall|h: Handle|
                old(self).body_live(h) && !(old(self).body_kind(h) is Dynamic)
                    ==> #[trigger] final(self).body_position(h) == old(self).body_position(h),
            forall|h: Handle|
                old(self).body_live(h) && !(old(self).body_kind(h) is Dynamic)
                    ==> #[trigger] final(self).body_rotation(h) == old(self).body_rotation(h),
            forall|h: Handle|
                old(self).body_live(h) && !(old(self).body_kind(h) is Dynamic)
                    ==> #[trigger] final(self).body_linear_velocity(h) == old(self).body_linear_velocity(h),
            forall|h: Handle|
                #[trigger] final(self).collider_live(h) == old(self).collider_live(h),
            forall|h: Handle|
                #[trigger] final(self).collider_stale(h) == old(self).collider_stale(h),
            forall|h: Handle|
                old(self).collider_live(h) ==> #[trigger] final(self).collider_parent(h) == old(self).collider_parent(h),
            forall|h: Handle|
                old(self).collider_live(h) ==> #[trigger] final(self).collider_position(h) == old(self).collider_position(h),
            forall|h: Handle|
                old(self).collider_live(h) ==> #[trigger] final(self).collider_rotation(h) == old(self).collider_rotation(h),
    {
        let n = self.rigid_body_set.slot_count();
        let half_dt = delta_time / 2;
        let mut i: usize = 0;
        while i < n
            invariant
                0 <= delta_time <= COORD_MAX,
                half_dt == delta_time / 2,
                i <= n,
                n == self.rigid_body_set.spec_slot_count(),
                n == old(self).rigid_body_set.spec_slot_count(),
                self.rigid_body_set.wf(),
                self.collider_set == old(self).collider_set,
                self.gravity == old(self).gravity,
                sv_bounded(self.gravity@, COORD_MAX as int),
                forall|h: Handle|
                    #[trigger] self.rigid_body_set.live(h) == old(self).rigid_body_set.live(h),
                forall|h: Handle|
                    #[trigger] self.rigid_body_set.stale(h) == old(self).rigid_body_set.stale(h),
                forall|h: Handle|
                    #[trigger] self.rigid_body_set.live(h) ==> Self::body_bounded(
                        self.rigid_body_set.value_of(h),
                    ),
                forall|h: Handle|
                    self.rigid_body_set.live(h) && h.index as int >= i
                        ==> #[trigger] self.rigid_body_set.value_of(h)
                        == old(self).rigid_body_set.value_of(h),
                forall|h: Handle|
                    self.rigid_body_set.live(h) && (h.index as int) < i ==> Self::body_stepped(
                        old(self).rigid_body_set.value_of(h),
                        #[trigger] self.rigid_body_set.value_of(h),
                        old(self).gravity@,
                        delta_time as int,
                    ),
            decreases n - i,
        {
            match self.rigid_body_set.handle_at(i) {
                Some(h) => {
                    let b = *self.rigid_body_set.get(h).unwrap();
                    let stepped = match b.body_type {
                        RigidBodyType::Dynamic => {
                            let gdt = self.gravity.fx_scale(delta_time);
                            let v1 = b.linear_velocity.add_clamped(gdt);
                            let p1 = b.position.add_clamped(v1.fx_scale(delta_time));
                            let cm: Ghost<int> = Ghost(COORD_MAX as int);
                            let delta = QuatFx {
                                x: crate::fixed::sat_add_rot(
                                    crate::fixed::fx_mul_b(b.angular_velocity.x, half_dt, cm, cm),
                                    0,
                                ),
                                y: crate::fixed::sat_add_rot(
                                    crate::fixed::fx_mul_b(b.angular_velocity.y, half_dt, cm, cm),
                                    0,
                                ),
                                z: crate::fixed::sat_add_rot(
                                    crate::fixed::fx_mul_b(b.angular_velocity.z, half_dt, cm, cm),
                                    0,
                                ),
                                w: FX_ONE,
                            };
                            let r1 = delta.mul_clamped(b.rotation);
                            RigidBody {
                                body_type: b.body_type,
                                position: p1,
                                rotation: r1,
                                linear_velocity: v1,
                                angular_velocity: b.angular_velocity,
                            }
                        },
                        _ => b,
                    };
                    match self.rigid_body_set.get_mut(h) {
                        Some(dest) => {
                            *dest = stepped;
                        },
                        None => {},
                    }
                    proof {
                        assert forall|h2: Handle|
                            self.rigid_body_set.live(h2) && (h2.index as int) < i + 1
                                implies Self::body_stepped(
                                old(self).rigid_body_set.value_of(h2),
                                #[trigger] self.rigid_body_set.value_of(h2),
                                old(self).gravity@,
                                delta_time as int,
                            ) by {
                            if h2.index as int == i as int {
                                self.rigid_body_set.lemma_live_unique_at_index(h2, h);
                            }
                        }
                    }
                },
                None => {
                    proof {
                        assert forall|h2: Handle|
                            self.rigid_body_set.live(h2) && (h2.index as int) < i + 1
                                implies Self::body_stepped(
                                old(self).rigid_body_set.value_of(h2),
                                #[trigger] self.rigid_body_set.value_of(h2),
                                old(self).gravity@,
                                delta_time as int,
                            ) by {
                        }
                    }
                },
            }
            i = i + 1;
        }
        proof {
            assert forall|h: Handle|
                self.rigid_body_set.live(h) implies (h.index as int) < n as int by {
                self.rigid_body_set.lemma_live_index(h);
            }
            assert forall|h: Handle|
                old(self).body_live(h) && old(self).body_kind(h) is Dynamic
                    implies #[trigger] self.body_linear_velocity(h) == spec_step_velocity(
                old(self).body_linear_velocity(h),
                old(self).spec_gravity(),
                delta_time as int,
            ) by {
                assert(self.rigid_body_set.live(h));
            }
            assert forall|h: Handle|
                old(self).body_live(h) && old(self).body_kind(h) is Dynamic
                    implies #[trigger] self.body_position(h) == spec_step_position(
                old(self).body_position(h),
                spec_step_velocity(
                    old(self).body_linear_velocity(h),
                    old(self).spec_gravity(),
                    delta_time as int,
                ),
                delta_time as int,
            ) by {
                assert(self.rigid_body_set.live(h));
            }
            assert forall|h: Handle|
                old(self).body_live(h) && old(self).body_kind(h) is Dynamic
                    implies #[trigger] self.body_rotation(h) == spec_step_rotation(
                old(self).body_rotation(h),
                old(self).body_angular_velocity(h),
                delta_time as int,
            ) by {
                assert(self.rigid_body_set.live(h));
            }
            assert forall|h: Handle|
                old(self).body_live(h) implies #[trigger] self.body_kind(h) == old(self).body_kind(
                h,
            ) by {
                assert(self.rigid_body_set.live(h));
            }
            assert forall|h: Handle|
                old(self).body_live(h) implies #[trigger] self.body_angular_velocity(h) == old(self).body_angular_velocity(h) by {
                assert(self.rigid_body_set.live(h));
            }
            assert forall|h: Handle|
                old(self).body_live(h) && !(old(self).body_kind(h) is Dynamic)
                    implies #[trigger] self.body_position(h) == old(self).body_position(h)
                    && self.body_rotation(h) == old(self).body_rotation(h)
                    && self.body_linear_velocity(h) == old(self).body_linear_velocity(h) by {
                assert(self.rigid_body_set.live(h));
            }
            assert forall|h: Handle|
                #[trigger] self.collider_set.live(h) implies self.rigid_body_set.live(
                self.collider_set.value_of(h).parent,
            ) by {
                assert(old(self).collider_set.live(h));
                assert(old(self).rigid_body_set.live(old(self).collider_set.value_of(h).parent));
            }
        }
    }
}

} // verus!
