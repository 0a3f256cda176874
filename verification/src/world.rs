//! The world: owner of the physics scene, the render scene and every
//! simulated object, run in a fixed per-frame order.
//!
//! A frame is: input is forwarded to the player object
//! (`update_player_input`), then `update` steps the physics world once
//! and runs every object's update hook, which reads the fresh physics
//! pose and pushes it into the render scene. No hook writes a body pose,
//! so after `update` every object's transform and render instance agree
//! exactly with this frame's physics step — never the previous one.
//!
//! Objects acquire their render instance and physics resources only in
//! `add_to_world` and release them only in `remove_from_world`, which is
//! what keeps every live handle owned by exactly one object.

use vstd::prelude::*;
use crate::entity::RigidBodyType;
use crate::handle::{Handle, HandleTable};
use crate::math::{sv_bounded, sv_zero, Vec3Fx};
use crate::perspective_camera::PerspectiveCamera;
use crate::physics::{ColliderShape, PhysicsScene};
use crate::player::{Player, MAX_DELTA_TIME};
use crate::scene::{InstanceType, MaterialHandle, MeshHandle, SceneRenderData};
use crate::transform::{st_compose, Transform};

verus! {

broadcast use vstd::set::group_set_axioms;

/// A world-issued object identity.
pub type EntityId = Handle;

/// The services an object may touch during its hooks: the physics
/// world, the render scene and the camera parameters.
pub struct WorldInfo {
    pub physics: PhysicsScene,
    pub rendering: SceneRenderData,
    pub player_camera: PerspectiveCamera,
}

/// A free-moving prop: an optional render model and an optional
/// simulated collision body.
pub struct DynamicEntity {
    pub id: Option<Handle>,
    pub transform: Transform,
    pub model: Option<(MeshHandle, MaterialHandle)>,
    pub collider: Option<(ColliderShape, i64)>,
    pub model_instance: Option<Handle>,
    pub rigid_body_instance: Option<Handle>,
    pub collider_instance: Option<Handle>,
}

impl DynamicEntity {

    /// A prop not yet registered with any world.
    pub fn new(
        transform: Transform,
        model: Option<(MeshHandle, MaterialHandle)>,
        collider: Option<(ColliderShape, i64)>,
    ) -> (e: Self)
        ensures
            e == (DynamicEntity {
                id: None,
                transform,
                model,
                collider,
                model_instance: None,
                rigid_body_instance: None,
                collider_instance: None,
            }),
    {
        DynamicEntity {
            id: None,
            transform,
            model,
            collider,
            model_instance: None,
            rigid_body_instance: None,
            collider_instance: None,
        }
    }

    /// Not yet registered: owns nothing.
    pub open spec fn unregistered(self) -> bool {
        &&& self.model_instance is None
        &&& self.rigid_body_instance is None
        &&& self.collider_instance is None
    }

    /// The descriptor fields are well formed.
    pub open spec fn desc_wf(self) -> bool {
        &&& self.transform.wf()
        &&& (self.collider matches Some(c) ==> 0 <= c.1)
    }

    /// Every handle this prop owns is live and linked correctly in the
    /// world: the collider is parented to the prop's own body.
    pub open spec fn links_ok(self, info: WorldInfo) -> bool {
        &&& self.transform.wf()
        &&& (self.model_instance matches Some(h) ==> info.rendering.has_instance(h))
        &&& (self.rigid_body_instance matches Some(h) ==> info.physics.body_live(h))
        &&& (self.collider_instance matches Some(h) ==> {
            &&& info.physics.collider_live(h)
            &&& self.rigid_body_instance matches Some(hb)
            &&& info.physics.collider_parent(h) == hb
        })
    }

    /// Register with the world: create the render instance for the
    /// model, and a dynamic rigid body carrying the collider, at the
    /// prop's transform.
    pub fn add_to_world(&mut self, world: &mut WorldInfo)
        requires
            old(world).physics.wf(),
            old(world).rendering.wf(),
            old(self).desc_wf(),
            old(self).unregistered(),
            old(world).physics.spec_body_slot_count() < 0xFFFF_FFFF,
            old(world).physics.spec_collider_slot_count() < 0xFFFF_FFFF,
        ensures
            final(world).physics.wf(),
            final(world).rendering.wf(),
            final(world).player_camera == old(world).player_camera,
            final(self).id == old(self).id,
            final(self).transform == old(self).transform,
            final(self).model == old(self).model,
            final(self).collider == old(self).collider,
            final(self).links_ok(*final(world)),
            // the model's instance, when the scene had room
            match final(self).model_instance {
                Some(hi) => {
                    &&& old(self).model matches Some(mm)
                    &&& !old(world).rendering.has_instance(hi)
                    &&& !old(world).rendering.stale_instance(hi)
                    &&& final(world).rendering.has_instance(hi)
                    &&& final(world).rendering.instance_type_of(hi) == (InstanceType {
                        mesh: mm.0,
                        material: mm.1,
                    })
                    &&& final(world).rendering.instance_transform(hi) == old(self).transform
                },
                None => old(self).model is None || (old(self).model matches Some(mm)
                    && old(world).rendering.at_capacity(
                    InstanceType { mesh: mm.0, material: mm.1 },
                )),
            },
            // the body and collider, exactly when a collider was asked for
            (final(self).rigid_body_instance is Some) == (old(self).collider is Some),
            (final(self).collider_instance is Some) == (old(self).collider is Some),
            match final(self).rigid_body_instance {
                Some(hb) => {
                    &&& !old(world).physics.body_live(hb)
                    &&& !old(world).physics.body_stale(hb)
                    &&& final(world).physics.body_live(hb)
                    &&& final(world).physics.body_position(hb) == old(self).transform.position@
                    &&& final(world).physics.body_rotation(hb) == old(self).transform.rotation@
                    &&& final(world).physics.body_linear_velocity(hb) == sv_zero()
                    &&& final(world).physics.body_angular_velocity(hb) == sv_zero()
                    &&& final(world).physics.body_kind(hb) == RigidBodyType::Dynamic
                },
                None => true,
            },
            match final(self).collider_instance {
                Some(hc) => {
                    &&& !old(world).physics.collider_live(hc)
                    &&& !old(world).physics.collider_stale(hc)
                    &&& final(world).physics.collider_live(hc)
                    &&& old(self).collider matches Some(cd) && final(world).physics.collider_shape(
                        hc,
                    ) == cd.0 && final(world).physics.collider_mass(hc) == cd.1
                    &&& final(world).physics.collider_position(hc) == old(self).transform.position@
                    &&& final(world).physics.collider_rotation(hc) == old(self).transform.rotation@
                },
                None => true,
            },
            forall|h: Handle|
                final(self).rigid_body_instance != Some(h) ==> #[trigger] final(world).physics.body_live(h) == old(world).physics.body_live(h),
            forall|h: Handle|
                old(world).physics.body_stale(h) ==> #[trigger] final(world).physics.body_stale(h),
            forall|h: Handle|
                final(self).collider_instance != Some(h) ==> #[trigger] final(world).physics.collider_live(h) == old(world).physics.collider_live(h),
            forall|h: Handle|
                old(world).physics.collider_stale(h) ==> #[trigger] final(world).physics.collider_stale(h),
            forall|h: Handle|
                final(self).model_instance != Some(h) ==> #[trigger] final(world).rendering.has_instance(h) == old(world).rendering.has_instance(h),
            forall|h: Handle|
                old(world).rendering.stale_instance(h) ==> #[trigger] final(world).rendering.stale_instance(h),
            final(world).physics.spec_gravity() == old(world).physics.spec_gravity(),
            final(world).physics.spec_body_slot_count() <= old(world).physics.spec_body_slot_count() + 1,
            final(world).physics.spec_collider_slot_count() <= old(world).physics.spec_collider_slot_count() + 1,
            forall|h: Handle|
                old(world).physics.collider_live(h) && final(world).physics.collider_live(h)
                    ==> #[trigger] final(world).physics.collider_parent(h) == old(world).physics.collider_parent(h),
    {
        if let Some(model) = self.model {
            self.model_instance = world.rendering.create_instance(
                model.0,
                model.1,
                &self.transform,
            );
        }
        if let Some(collider) = self.collider {
            let body = world.physics.create_rigid_body(
                self.transform.position,
                self.transform.rotation,
                RigidBodyType::Dynamic,
            );
            let ghost mid = *world;
            let shape = collider.0;
            let coll = world.physics.create_collider(
                body,
                self.transform.position,
                self.transform.rotation,
                &shape,
                collider.1,
            );
            self.rigid_body_instance = Some(body);
            self.collider_instance = Some(coll);
            proof {
                assert(mid.physics.body_live(body));
                assert(world.physics.body_live(body));
                assert(world.physics.body_position(body) == mid.physics.body_position(body));
                assert(world.physics.body_rotation(body) == mid.physics.body_rotation(body));
                assert(world.physics.body_linear_velocity(body) == mid.physics.body_linear_velocity(
                    body,
                ));
                assert(world.physics.body_angular_velocity(body)
                    == mid.physics.body_angular_velocity(body));
                assert(world.physics.body_kind(body) == mid.physics.body_kind(body));
            }
        }
    }

    /// Unregister from the world: release the render instance, the
    /// collider and the rigid body. Nothing else in the world is
    /// touched.
    pub fn remove_from_world(&mut self, world: &mut WorldInfo)
        requires
            old(world).physics.wf(),
            old(world).rendering.wf(),
            old(self).links_ok(*old(world)),
        ensures
            final(world).physics.wf(),
            final(world).rendering.wf(),
            final(world).player_camera == old(world).player_camera,
            final(self).unregistered(),
            final(self).id == old(self).id,
            final(self).transform == old(self).transform,
            final(self).model == old(self).model,
            final(self).collider == old(self).collider,
            // the released handles are dead for good
            old(self).model_instance matches Some(hi) ==> !final(world).rendering.has_instance(hi)
                && final(world).rendering.stale_instance(hi),
            old(self).rigid_body_instance matches Some(hb) ==> !final(world).physics.body_live(hb)
                && final(world).physics.body_stale(hb),
            old(self).collider_instance matches Some(hc) ==> !final(world).physics.collider_live(
                hc,
            ) && final(world).physics.collider_stale(hc),
            // everything else is untouched
            forall|h: Handle|
                old(self).model_instance != Some(h) ==> #[trigger] final(world).rendering.has_instance(h) == old(world).rendering.has_instance(h),
            forall|h: Handle|
                old(world).rendering.stale_instance(h) ==> #[trigger] final(world).rendering.stale_instance(h),
            forall|h: Handle|
                old(self).rigid_body_instance != Some(h) ==> #[trigger] final(world).physics.body_live(h) == old(world).physics.body_live(h),
            forall|h: Handle|
                old(world).physics.body_stale(h) ==> #[trigger] final(world).physics.body_stale(h),
            forall|h: Handle|
                old(self).collider_instance != Some(h) && (old(world).physics.collider_live(h)
                    ==> old(self).rigid_body_instance != Some(
                    old(world).physics.collider_parent(h),
                )) ==> #[trigger] final(world).physics.collider_live(h) == old(world).physics.collider_live(h),
            forall|h: Handle|
                old(world).physics.collider_stale(h) ==> #[trigger] final(world).physics.collider_stale(h),
            final(world).physics.spec_gravity() == old(world).physics.spec_gravity(),
            final(world).physics.spec_body_slot_count() == old(world).physics.spec_body_slot_count(),
            forall|h: Handle|
                old(world).physics.collider_live(h) && final(world).physics.collider_live(h)
                    ==> #[trigger] final(world).physics.collider_parent(h) == old(world).physics.collider_parent(h),
            final(world).physics.spec_collider_slot_count() == old(world).physics.spec_collider_slot_count(),
    {
        if let Some(model) = self.model_instance {
            world.rendering.remove_instance(model);
            self.model_instance = None;
        }
        if let Some(collider) = self.collider_instance {
            world.physics.remove_collider(collider);
            self.collider_instance = None;
        }
        if let Some(rigid_body) = self.rigid_body_instance {
            world.physics.remove_rigid_body(rigid_body);
            self.rigid_body_instance = None;
        }
    }

    /// Adopt this frame's physics pose and push it into the render
    /// scene.
    pub fn update(&mut self, world: &mut WorldInfo, delta_time: i64)
        requires
            old(world).physics.wf(),
            old(world).rendering.wf(),
            old(self).links_ok(*old(world)),
            0 <= delta_time <= MAX_DELTA_TIME,
        ensures
            final(world).physics.wf(),
            final(world).rendering.wf(),
            final(world).player_camera == old(world).player_camera,
            final(self).links_ok(*final(world)),
            final(self).id == old(self).id,
            final(self).model == old(self).model,
            final(self).collider == old(self).collider,
            final(self).model_instance == old(self).model_instance,
            final(self).rigid_body_instance == old(self).rigid_body_instance,
            final(self).collider_instance == old(self).collider_instance,
            // the transform now carries the physics pose of this frame
            match old(self).rigid_body_instance {
                Some(hb) => final(self).transform.position@ == old(world).physics.body_position(
                    hb,
                ) && final(self).transform.rotation@ == old(world).physics.body_rotation(hb)
                    && final(self).transform.scale == old(self).transform.scale,
                None => final(self).transform == old(self).transform,
            },
            // and the render instance carries that same transform
            old(self).model_instance matches Some(hi) ==> final(world).rendering.instance_transform(
                hi,
            ) == final(self).transform && final(world).rendering.instance_type_of(hi) == old(world).rendering.instance_type_of(hi),
            // physics is read, never written
            *final(world) == (WorldInfo {
                rendering: final(world).rendering,
                ..*old(world)
            }),
            forall|h: Handle|
                old(self).model_instance != Some(h) && old(world).rendering.has_instance(h)
                    ==> #[trigger] final(world).rendering.instance_transform(h) == old(world).rendering.instance_transform(h),
            forall|h: Handle|
                old(world).rendering.has_instance(h) ==> #[trigger] final(world).rendering.instance_type_of(h) == old(world).rendering.instance_type_of(h),
            old(self).model_instance matches Some(hi) ==> final(world).rendering.has_instance(hi),
            forall|h: Handle|
                #[trigger] final(world).rendering.has_instance(h) == old(world).rendering.has_instance(h),
            forall|h: Handle|
                #[trigger] final(world).rendering.stale_instance(h) == old(world).rendering.stale_instance(h),
    {
        let _ = delta_time;
        if let Some(rigid_body) = self.rigid_body_instance {
            let pose = world.physics.get_rigid_body_transform(rigid_body);
            self.transform.position = pose.0;
            self.transform.rotation = pose.1;
        }
        if let Some(model) = self.model_instance {
            world.rendering.update_instance(model, &self.transform);
        }
    }

    /// Props take no player input.
    pub fn update_player_input(&mut self, linear_input: crate::math::Vec3Fx, angular_input: crate::math::Vec3Fx)
        ensures
            *final(self) == *old(self),
    {
        let _ = linear_input;
        let _ = angular_input;
    }

    /// Props carry no camera.
    pub fn get_camera_transform(&self) -> (r: Option<Transform>)
        ensures
            r is None,
    {
        None
    }
}

/// One rigidly attached part of a composite craft: a local offset, an
/// optional render model and an optional collider.
#[derive(Clone, Copy, Debug, PartialEq, Eq)]
pub struct SpaceCraftPart {
    pub local_offset: Transform,
    pub model: Option<(MeshHandle, MaterialHandle)>,
    pub collider: Option<(ColliderShape, i64)>,
    pub model_instance: Option<Handle>,
    pub collider_instance: Option<Handle>,
}

impl SpaceCraftPart {
    pub fn new(
        local_offset: Transform,
        model: Option<(MeshHandle, MaterialHandle)>,
        collider: Option<(ColliderShape, i64)>,
    ) -> (p: Self)
        ensures
            p == (SpaceCraftPart {
                local_offset,
                model,
                collider,
                model_instance: None,
                collider_instance: None,
            }),
    {
        SpaceCraftPart { local_offset, model, collider, model_instance: None, collider_instance: None }
    }
}

/// A handle `h` is the render instance of one of the craft's parts.
pub open spec fn craft_owns_instance(parts: Seq<SpaceCraftPart>, h: Handle) -> bool {
    exists|i: int| 0 <= i < parts.len() && (#[trigger] parts[i]).model_instance == Some(h)
}

/// A handle `h` is the collider of one of the craft's parts.
pub open spec fn craft_owns_collider(parts: Seq<SpaceCraftPart>, h: Handle) -> bool {
    exists|i: int| 0 <= i < parts.len() && (#[trigger] parts[i]).collider_instance == Some(h)
}

/// A multi-part rigid assembly: one parent rigid body plus rigidly
/// attached parts, synchronized as a unit each frame.
pub struct SpaceCraft {
    pub id: Option<Handle>,
    pub transform: Transform,
    pub parts: Vec<SpaceCraftPart>,
    pub rigid_body_instance: Option<Handle>,
}

impl SpaceCraft {
    pub fn new(transform: Transform, parts: Vec<SpaceCraftPart>) -> (c: Self)
        ensures
            c == (SpaceCraft { id: None, transform, parts, rigid_body_instance: None }),
    {
        SpaceCraft { id: None, transform, parts, rigid_body_instance: None }
    }

    /// Not yet registered: owns nothing.
    pub open spec fn unregistered(self) -> bool {
        &&& self.rigid_body_instance is None
        &&& forall|i: int|
            0 <= i < self.parts@.len() ==> (#[trigger] self.parts@[i]).model_instance is None
                && self.parts@[i].collider_instance is None
    }

    /// The descriptor fields are well formed.
    pub open spec fn desc_wf(self) -> bool {
        &&& self.transform.wf()
        &&& forall|i: int|
            0 <= i < self.parts@.len() ==> (#[trigger] self.parts@[i]).local_offset.wf() && (
            self.parts@[i].collider matches Some(c) ==> 0 <= c.1)
    }

    /// Every handle the craft owns is live, colliders hang off the
    /// craft's own body, and no two parts share a handle.
    pub open spec fn links_ok(self, info: WorldInfo) -> bool {
        &&& self.desc_wf()
        &&& forall|i: int|
            0 <= i < self.parts@.len() ==> {
                let p = #[trigger] self.parts@[i];
                &&& (p.model_instance matches Some(h) ==> info.rendering.has_instance(h))
                &&& (p.collider_instance matches Some(h) ==> {
                    &&& info.physics.collider_live(h)
                    &&& self.rigid_body_instance matches Some(hb)
                    &&& info.physics.collider_parent(h) == hb
                })
            }
        &&& (self.rigid_body_instance matches Some(hb) ==> info.physics.body_live(hb))
        &&& forall|i: int, j: int|
            0 <= i < j < self.parts@.len() ==> ((#[trigger] self.parts@[i]).model_instance is Some
                ==> self.parts@[i].model_instance != (#[trigger] self.parts@[j]).model_instance)
                && (self.parts@[i].collider_instance is Some ==> self.parts@[i].collider_instance
                != self.parts@[j].collider_instance)
    }

    /// Register with the world: one parent rigid body at the craft's
    /// transform, then per part a render instance at the composed
    /// transform and a collider parented to the body.
    pub fn add_to_world(&mut self, world: &mut WorldInfo)
        requires
            old(world).physics.wf(),
            old(world).rendering.wf(),
            old(self).desc_wf(),
            old(self).unregistered(),
            old(world).physics.spec_body_slot_count() < 0xFFFF_FFFF,
            old(world).physics.spec_collider_slot_count() + old(self).parts@.len()
                < 0xFFFF_FFFF,
        ensures
            final(world).physics.wf(),
            final(world).rendering.wf(),
            final(world).player_camera == old(world).player_camera,
            final(self).id == old(self).id,
            final(self).transform == old(self).transform,
            final(self).parts@.len() == old(self).parts@.len(),
            forall|i: int|
                0 <= i < old(self).parts@.len() ==> (#[trigger] final(self).parts@[i]).local_offset
                    == old(self).parts@[i].local_offset && final(self).parts@[i].model == old(self).parts@[i].model && final(self).parts@[i].collider == old(self).parts@[i].collider,
            final(self).links_ok(*final(world)),
            final(self).rigid_body_instance is Some,
            final(self).rigid_body_instance matches Some(hb) ==> {
                &&& !old(world).physics.body_live(hb)
                &&& !old(world).physics.body_stale(hb)
                &&& final(world).physics.body_live(hb)
                &&& final(world).physics.body_position(hb) == old(self).transform.position@
                &&& final(world).physics.body_rotation(hb) == old(self).transform.rotation@
                &&& final(world).physics.body_linear_velocity(hb) == sv_zero()
                &&& final(world).physics.body_angular_velocity(hb) == sv_zero()
                &&& final(world).physics.body_kind(hb) == RigidBodyType::Dynamic
            },
            forall|i: int|
                0 <= i < final(self).parts@.len() ==> ((#[trigger] final(self).parts@[i]).model_instance
                    matches Some(hi) ==> {
                    &&& final(world).rendering.has_instance(hi)
                    &&& old(self).parts@[i].model matches Some(mm)
                    &&& final(world).rendering.instance_type_of(hi) == (InstanceType {
                        mesh: mm.0,
                        material: mm.1,
                    })
                    &&& final(world).rendering.instance_transform(hi)@ == st_compose(
                        old(self).transform@,
                        old(self).parts@[i].local_offset@,
                    )
                }),
            forall|i: int|
                0 <= i < final(self).parts@.len() ==> ((#[trigger] final(self).parts@[i]).collider_instance
                    is Some) == (old(self).parts@[i].collider is Some),
            forall|i: int|
                0 <= i < final(self).parts@.len() ==> ((#[trigger] final(self).parts@[i]).model_instance
                    matches Some(hi) ==> !old(world).rendering.has_instance(hi)
                    && !old(world).rendering.stale_instance(hi)),
            forall|i: int|
                0 <= i < final(self).parts@.len() ==> ((#[trigger] final(self).parts@[i]).collider_instance
                    matches Some(hc) ==> !old(world).physics.collider_live(hc)
                    && !old(world).physics.collider_stale(hc)),
            forall|i: int|
                0 <= i < final(self).parts@.len() ==> ((#[trigger] final(self).parts@[i]).collider_instance
                    matches Some(hc) ==> final(world).physics.collider_live(hc)),
            forall|h: Handle|
                final(self).rigid_body_instance != Some(h) ==> #[trigger] final(world).physics.body_live(h) == old(world).physics.body_live(h),
            forall|h: Handle|
                !craft_owns_collider(final(self).parts@, h) ==> #[trigger] final(world).physics.collider_live(h) == old(world).physics.collider_live(h),
            forall|h: Handle|
                !craft_owns_instance(final(self).parts@, h) ==> #[trigger] final(world).rendering.has_instance(h) == old(world).rendering.has_instance(h),
            forall|h: Handle|
                old(world).physics.body_stale(h) ==> #[trigger] final(world).physics.body_stale(h),
            forall|h: Handle|
                old(world).physics.collider_stale(h) ==> #[trigger] final(world).physics.collider_stale(h),
            forall|h: Handle|
                old(world).rendering.stale_instance(h) ==> #[trigger] final(world).rendering.stale_instance(h),
            final(world).physics.spec_gravity() == old(world).physics.spec_gravity(),
            final(world).physics.spec_body_slot_count() <= old(world).physics.spec_body_slot_count()
                + 1,
            final(world).physics.spec_collider_slot_count() <= old(world).physics.spec_collider_slot_count() + old(self).parts@.len(),
            forall|h: Handle|
                old(world).physics.collider_live(h) && final(world).physics.collider_live(h)
                    ==> #[trigger] final(world).physics.collider_parent(h) == old(world).physics.collider_parent(h),
    {
        let body = world.physics.create_rigid_body(
            self.transform.position,
            self.transform.rotation,
            RigidBodyType::Dynamic,
        );
        self.rigid_body_instance = Some(body);
        let n = self.parts.len();
        let mut i: usize = 0;
        while i < n
            invariant
                world.physics.wf(),
                world.rendering.wf(),
                world.player_camera == old(world).player_camera,
                self.id == old(self).id,
                self.transform == old(self).transform,
                self.transform.wf(),
                self.rigid_body_instance == Some(body),
                i <= n,
                n == self.parts@.len(),
                n == old(self).parts@.len(),
                old(self).desc_wf(),
                old(world).physics.spec_collider_slot_count() + n < 0xFFFF_FFFF,
                world.physics.body_live(body),
                !old(world).physics.body_live(body),
                !old(world).physics.body_stale(body),
                world.physics.body_position(body) == old(self).transform.position@,
                world.physics.body_rotation(body) == old(self).transform.rotation@,
                world.physics.body_linear_velocity(body) == sv_zero(),
                world.physics.body_angular_velocity(body) == sv_zero(),
                world.physics.body_kind(body) == RigidBodyType::Dynamic,
                forall|j: int|
                    0 <= j < n ==> (#[trigger] self.parts@[j]).local_offset == old(self).parts@[j].local_offset && self.parts@[j].model == old(self).parts@[j].model
                        && self.parts@[j].collider == old(self).parts@[j].collider,
                forall|j: int|
                    i <= j < n ==> (#[trigger] self.parts@[j]).model_instance is None
                        && self.parts@[j].collider_instance is None,
                forall|j: int|
                    0 <= j < i ==> ((#[trigger] self.parts@[j]).model_instance matches Some(hi)
                        ==> {
                        &&& world.rendering.has_instance(hi)
                        &&& old(self).parts@[j].model matches Some(mm)
                        &&& world.rendering.instance_type_of(hi) == (InstanceType {
                            mesh: mm.0,
                            material: mm.1,
                        })
                        &&& world.rendering.instance_transform(hi)@ == st_compose(
                            old(self).transform@,
                            old(self).parts@[j].local_offset@,
                        )
                    }),
                forall|j: int|
                    0 <= j < i ==> ((#[trigger] self.parts@[j]).collider_instance is Some) == (
                    old(self).parts@[j].collider is Some),
                forall|j: int|
                    0 <= j < i ==> ((#[trigger] self.parts@[j]).collider_instance matches Some(hc)
                        ==> world.physics.collider_live(hc) && world.physics.collider_parent(hc)
                        == body),
                forall|j: int|
                    0 <= j < i ==> ((#[trigger] self.parts@[j]).model_instance matches Some(hi)
                        ==> !old(world).rendering.has_instance(hi)
                        && !old(world).rendering.stale_instance(hi)),
                forall|j: int|
                    0 <= j < i ==> ((#[trigger] self.parts@[j]).collider_instance matches Some(hc)
                        ==> !old(world).physics.collider_live(hc)
                        && !old(world).physics.collider_stale(hc)),
                forall|j: int, k: int|
                    0 <= j < k < n ==> ((#[trigger] self.parts@[j]).model_instance is Some
                        ==> self.parts@[j].model_instance != (
                        #[trigger] self.parts@[k]).model_instance) && (
                    self.parts@[j].collider_instance is Some ==> self.parts@[j].collider_instance
                        != self.parts@[k].collider_instance),
                forall|h: Handle|
                    body != h ==> #[trigger] world.physics.body_live(h) == old(world).physics.body_live(h),
                forall|h: Handle|
                    !craft_owns_collider(self.parts@, h) ==> #[trigger] world.physics.collider_live(
                        h,
                    ) == old(world).physics.collider_live(h),
                forall|h: Handle|
                    old(world).physics.collider_live(h) ==> #[trigger] world.physics.collider_parent(
                        h,
                    ) == old(world).physics.collider_parent(h),
                forall|h: Handle|
                    !craft_owns_instance(self.parts@, h) ==> #[trigger] world.rendering.has_instance(
                        h,
                    ) == old(world).rendering.has_instance(h),
                forall|h: Handle|
                    old(world).physics.body_stale(h) ==> #[trigger] world.physics.body_stale(h),
                forall|h: Handle|
                    old(world).physics.collider_stale(h) ==> #[trigger] world.physics.collider_stale(
                        h,
                    ),
                forall|h: Handle|
                    old(world).rendering.stale_instance(h) ==> #[trigger] world.rendering.stale_instance(
                        h,
                    ),
                world.physics.spec_gravity() == old(world).physics.spec_gravity(),
                world.physics.spec_body_slot_count() <= old(world).physics.spec_body_slot_count()
                    + 1,
                world.physics.spec_collider_slot_count() <= old(world).physics.spec_collider_slot_count() + i,
            decreases n - i,
        {
            let ghost pre_parts = self.parts@;
            let ghost pre_world = *world;
            let offset = self.parts[i].local_offset;
            let world_transform = self.transform.compose(offset);
            if let Some(mm) = self.parts[i].model {
                let inst = world.rendering.create_instance(mm.0, mm.1, &world_transform);
                self.parts[i].model_instance = inst;
            }
            let ghost mid_world = *world;
            if let Some(cd) = self.parts[i].collider {
                let shape = cd.0;
                let hc = world.physics.create_collider(
                    body,
                    self.transform.position,
                    self.transform.rotation,
                    &shape,
                    cd.1,
                );
                self.parts[i].collider_instance = Some(hc);
                proof {
                    assert(mid_world.physics == pre_world.physics);
                    assert(world.physics.body_live(body));
                    assert(world.physics.body_position(body) == mid_world.physics.body_position(
                        body,
                    ));
                    assert(world.physics.body_rotation(body) == mid_world.physics.body_rotation(
                        body,
                    ));
                    assert(world.physics.body_linear_velocity(body)
                        == mid_world.physics.body_linear_velocity(body));
                    assert(world.physics.body_angular_velocity(body)
                        == mid_world.physics.body_angular_velocity(body));
                    assert(world.physics.body_kind(body) == mid_world.physics.body_kind(body));
                }
            }
            proof {
                assert forall|h: Handle|
                    !craft_owns_collider(self.parts@, h) implies #[trigger] world.physics.collider_live(
                    h,
                ) == old(world).physics.collider_live(h) by {
                    assert(!craft_owns_collider(pre_parts, h)) by {
                        if craft_owns_collider(pre_parts, h) {
                            let j = choose|j: int|
                                0 <= j < pre_parts.len() && (#[trigger] pre_parts[j]).collider_instance
                                    == Some(h);
                            assert(self.parts@[j].collider_instance == Some(h));
                        }
                    }
                }
                assert forall|h: Handle|
                    !craft_owns_instance(self.parts@, h) implies #[trigger] world.rendering.has_instance(
                    h,
                ) == old(world).rendering.has_instance(h) by {
                    assert(!craft_owns_instance(pre_parts, h)) by {
                        if craft_owns_instance(pre_parts, h) {
                            let j = choose|j: int|
                                0 <= j < pre_parts.len() && (#[trigger] pre_parts[j]).model_instance
                                    == Some(h);
                            assert(self.parts@[j].model_instance == Some(h));
                        }
                    }
                    assert(!mid_world.rendering.has_instance(h) == !pre_world.rendering.has_instance(h));
                }
            }
            i = i + 1;
        }
    }

    /// Unregister from the world: release every part's render instance
    /// and collider, then the parent body. Nothing else is touched.
    pub fn remove_from_world(&mut self, world: &mut WorldInfo)
        requires
            old(world).physics.wf(),
            old(world).rendering.wf(),
            old(self).links_ok(*old(world)),
        ensures
            final(world).physics.wf(),
            final(world).rendering.wf(),
            final(world).player_camera == old(world).player_camera,
            final(self).unregistered(),
            final(self).id == old(self).id,
            final(self).transform == old(self).transform,
            final(self).parts@.len() == old(self).parts@.len(),
            old(self).rigid_body_instance matches Some(hb) ==> !final(world).physics.body_live(hb)
                && final(world).physics.body_stale(hb),
            forall|h: Handle|
                craft_owns_instance(old(self).parts@, h) ==> !(#[trigger] final(world).rendering.has_instance(h)),
            forall|h: Handle|
                craft_owns_instance(old(self).parts@, h) ==> #[trigger] final(world).rendering.stale_instance(h),
            forall|h: Handle|
                craft_owns_collider(old(self).parts@, h) ==> !(#[trigger] final(world).physics.collider_live(h)),
            forall|h: Handle|
                craft_owns_collider(old(self).parts@, h) ==> #[trigger] final(world).physics.collider_stale(h),
            forall|h: Handle|
                !craft_owns_instance(old(self).parts@, h) ==> #[trigger] final(world).rendering.has_instance(h) == old(world).rendering.has_instance(h),
            forall|h: Handle|
                old(self).rigid_body_instance != Some(h) ==> #[trigger] final(world).physics.body_live(h) == old(world).physics.body_live(h),
            forall|h: Handle|
                !craft_owns_collider(old(self).parts@, h) && (old(world).physics.collider_live(h)
                    ==> old(self).rigid_body_instance != Some(
                    old(world).physics.collider_parent(h),
                )) ==> #[trigger] final(world).physics.collider_live(h) == old(world).physics.collider_live(h),
            forall|h: Handle|
                old(world).physics.body_stale(h) ==> #[trigger] final(world).physics.body_stale(h),
            forall|h: Handle|
                old(world).physics.collider_stale(h) ==> #[trigger] final(world).physics.collider_stale(h),
            forall|h: Handle|
                old(world).rendering.stale_instance(h) ==> #[trigger] final(world).rendering.stale_instance(h),
            final(world).physics.spec_gravity() == old(world).physics.spec_gravity(),
            final(world).physics.spec_body_slot_count() == old(world).physics.spec_body_slot_count(),
            forall|h: Handle|
                old(world).physics.collider_live(h) && final(world).physics.collider_live(h)
                    ==> #[trigger] final(world).physics.collider_parent(h) == old(world).physics.collider_parent(h),
            final(world).physics.spec_collider_slot_count() == old(world).physics.spec_collider_slot_count(),
    {
        let n = self.parts.len();
        let mut i: usize = 0;
        while i < n
            invariant
                world.physics.wf(),
                world.rendering.wf(),
                world.player_camera == old(world).player_camera,
                self.id == old(self).id,
                self.transform == old(self).transform,
                self.rigid_body_instance == old(self).rigid_body_instance,
                i <= n,
                n == self.parts@.len(),
                n == old(self).parts@.len(),
                old(self).links_ok(*old(world)),
                forall|j: int| i <= j < n ==> #[trigger] self.parts@[j] == old(self).parts@[j],
                forall|j: int|
                    0 <= j < i ==> (#[trigger] self.parts@[j]).model_instance is None
                        && self.parts@[j].collider_instance is None,
                old(self).rigid_body_instance matches Some(hb) ==> world.physics.body_live(hb),
                forall|h: Handle|
                    craft_owns_instance(old(self).parts@.take(i as int), h) ==> !(
                    #[trigger] world.rendering.has_instance(h)),
                forall|h: Handle|
                    craft_owns_instance(old(self).parts@.take(i as int), h)
                        ==> #[trigger] world.rendering.stale_instance(h),
                forall|h: Handle|
                    craft_owns_collider(old(self).parts@.take(i as int), h) ==> !(
                    #[trigger] world.physics.collider_live(h)),
                forall|h: Handle|
                    craft_owns_collider(old(self).parts@.take(i as int), h)
                        ==> #[trigger] world.physics.collider_stale(h),
                forall|h: Handle|
                    !craft_owns_instance(old(self).parts@.take(i as int), h)
                        ==> #[trigger] world.rendering.has_instance(h) == old(world).rendering.has_instance(h),
                forall|h: Handle| #[trigger] world.physics.body_live(h) == old(world).physics.body_live(h),
                forall|h: Handle|
                    !craft_owns_collider(old(self).parts@.take(i as int), h)
                        ==> #[trigger] world.physics.collider_live(h) == old(world).physics.collider_live(h),
                forall|h: Handle|
                    !craft_owns_collider(old(self).parts@.take(i as int), h) && old(world).physics.collider_live(h) ==> #[trigger] world.physics.collider_parent(h)
                        == old(world).physics.collider_parent(h),
                forall|h: Handle|
                    old(world).physics.body_stale(h) ==> #[trigger] world.physics.body_stale(h),
                forall|h: Handle|
                    old(world).physics.collider_stale(h) ==> #[trigger] world.physics.collider_stale(
                        h,
                    ),
                forall|h: Handle|
                    old(world).rendering.stale_instance(h) ==> #[trigger] world.rendering.stale_instance(
                        h,
                    ),
                world.physics.spec_gravity() == old(world).physics.spec_gravity(),
                world.physics.spec_body_slot_count() == old(world).physics.spec_body_slot_count(),
                world.physics.spec_collider_slot_count() == old(world).physics.spec_collider_slot_count(),
            decreases n - i,
        {
            let ghost prefix = old(self).parts@.take(i as int);
            let ghost next_prefix = old(self).parts@.take(i as int + 1);
            proof {
                assert(next_prefix =~= prefix.push(old(self).parts@[i as int]));
            }
            if let Some(hi) = self.parts[i].model_instance {
                proof {
                    assert(old(self).parts@[i as int].model_instance == Some(hi));
                    assert(!craft_owns_instance(prefix, hi)) by {
                        if craft_owns_instance(prefix, hi) {
                            let j = choose|j: int|
                                0 <= j < prefix.len() && (#[trigger] prefix[j]).model_instance
                                    == Some(hi);
                            assert(old(self).parts@[j].model_instance == Some(hi));
                        }
                    }
                    assert(world.rendering.has_instance(hi));
                }
                world.rendering.remove_instance(hi);
                self.parts[i].model_instance = None;
            }
            if let Some(hc) = self.parts[i].collider_instance {
                proof {
                    assert(old(self).parts@[i as int].collider_instance == Some(hc));
                    assert(!craft_owns_collider(prefix, hc)) by {
                        if craft_owns_collider(prefix, hc) {
                            let j = choose|j: int|
                                0 <= j < prefix.len() && (#[trigger] prefix[j]).collider_instance
                                    == Some(hc);
                            assert(old(self).parts@[j].collider_instance == Some(hc));
                        }
                    }
                    assert(world.physics.collider_live(hc));
                }
                world.physics.remove_collider(hc);
                self.parts[i].collider_instance = None;
            }
            proof {
                assert forall|h: Handle|
                    craft_owns_instance(next_prefix, h) implies !(
                #[trigger] world.rendering.has_instance(h)) by {
                    let j = choose|j: int|
                        0 <= j < next_prefix.len() && (#[trigger] next_prefix[j]).model_instance
                            == Some(h);
                    if j < i as int {
                        assert(craft_owns_instance(prefix, h));
                        assert(old(self).parts@[j].model_instance == Some(h));
                        if old(self).parts@[i as int].model_instance == Some(h) {
                            assert(old(self).parts@[j].model_instance != old(self).parts@[i as int].model_instance);
                        }
                    } else {
                        assert(old(self).parts@[i as int].model_instance == Some(h));
                    }
                }
                assert forall|h: Handle|
                    craft_owns_instance(next_prefix, h)
                        implies #[trigger] world.rendering.stale_instance(h) by {
                    let j = choose|j: int|
                        0 <= j < next_prefix.len() && (#[trigger] next_prefix[j]).model_instance
                            == Some(h);
                    if j < i as int {
                        assert(craft_owns_instance(prefix, h));
                        assert(old(self).parts@[j].model_instance == Some(h));
                        if old(self).parts@[i as int].model_instance == Some(h) {
                            assert(old(self).parts@[j].model_instance != old(self).parts@[i as int].model_instance);
                        }
                    } else {
                        assert(old(self).parts@[i as int].model_instance == Some(h));
                    }
                }
                assert forall|h: Handle|
                    craft_owns_collider(next_prefix, h) implies !(
                #[trigger] world.physics.collider_live(h)) by {
                    let j = choose|j: int|
                        0 <= j < next_prefix.len() && (#[trigger] next_prefix[j]).collider_instance
                            == Some(h);
                    if j < i as int {
                        assert(craft_owns_collider(prefix, h));
                        assert(old(self).parts@[j].collider_instance == Some(h));
                        if old(self).parts@[i as int].collider_instance == Some(h) {
                            assert(old(self).parts@[j].collider_instance != old(self).parts@[i as int].collider_instance);
                        }
                    } else {
                        assert(old(self).parts@[i as int].collider_instance == Some(h));
                    }
                }
                assert forall|h: Handle|
                    craft_owns_collider(next_prefix, h)
                        implies #[trigger] world.physics.collider_stale(h) by {
                    let j = choose|j: int|
                        0 <= j < next_prefix.len() && (#[trigger] next_prefix[j]).collider_instance
                            == Some(h);
                    if j < i as int {
                        assert(craft_owns_collider(prefix, h));
                        assert(old(self).parts@[j].collider_instance == Some(h));
                        if old(self).parts@[i as int].collider_instance == Some(h) {
                            assert(old(self).parts@[j].collider_instance != old(self).parts@[i as int].collider_instance);
                        }
                    } else {
                        assert(old(self).parts@[i as int].collider_instance == Some(h));
                    }
                }
                assert forall|h: Handle|
                    !craft_owns_instance(next_prefix, h) implies #[trigger] world.rendering.has_instance(
                    h,
                ) == old(world).rendering.has_instance(h) by {
                    assert(!craft_owns_instance(prefix, h)) by {
                        if craft_owns_instance(prefix, h) {
                            let j = choose|j: int|
                                0 <= j < prefix.len() && (#[trigger] prefix[j]).model_instance
                                    == Some(h);
                            assert(next_prefix[j].model_instance == Some(h));
                        }
                    }
                    if old(self).parts@[i as int].model_instance == Some(h) {
                        assert(next_prefix[i as int].model_instance == Some(h));
                        assert(craft_owns_instance(next_prefix, h));
                    }
                }
                assert forall|h: Handle|
                    !craft_owns_collider(next_prefix, h) implies #[trigger] world.physics.collider_live(
                    h,
                ) == old(world).physics.collider_live(h) by {
                    assert(!craft_owns_collider(prefix, h)) by {
                        if craft_owns_collider(prefix, h) {
                            let j = choose|j: int|
                                0 <= j < prefix.len() && (#[trigger] prefix[j]).collider_instance
                                    == Some(h);
                            assert(next_prefix[j].collider_instance == Some(h));
                        }
                    }
                    if old(self).parts@[i as int].collider_instance == Some(h) {
                        assert(next_prefix[i as int].collider_instance == Some(h));
                        assert(craft_owns_collider(next_prefix, h));
                    }
                }
            }
            i = i + 1;
        }
        proof {
            assert(old(self).parts@.take(n as int) =~= old(self).parts@);
        }
        if let Some(hb) = self.rigid_body_instance {
            world.physics.remove_rigid_body(hb);
            self.rigid_body_instance = None;
        }
        proof {
            assert forall|h: Handle|
                craft_owns_collider(old(self).parts@, h) implies !(
            #[trigger] world.physics.collider_live(h)) by {
            }
            assert forall|h: Handle|
                craft_owns_collider(old(self).parts@, h)
                    implies #[trigger] world.physics.collider_stale(h) by {
            }
        }
    }

    /// Adopt this frame's root pose from the physics world, push the
    /// same root transform into every part's collider, and refresh every
    /// part's render instance at root-compose-offset.
    pub fn update(&mut self, world: &mut WorldInfo, delta_time: i64)
        requires
            old(world).physics.wf(),
            old(world).rendering.wf(),
            old(self).links_ok(*old(world)),
            0 <= delta_time <= MAX_DELTA_TIME,
        ensures
            final(world).physics.wf(),
            final(world).rendering.wf(),
            final(world).player_camera == old(world).player_camera,
            final(self).links_ok(*final(world)),
            final(self).id == old(self).id,
            final(self).parts == old(self).parts,
            final(self).rigid_body_instance == old(self).rigid_body_instance,
            match old(self).rigid_body_instance {
                Some(hb) => final(self).transform.position@ == old(world).physics.body_position(
                    hb,
                ) && final(self).transform.rotation@ == old(world).physics.body_rotation(hb)
                    && final(self).transform.scale == old(self).transform.scale,
                None => final(self).transform == old(self).transform,
            },
            forall|i: int|
                0 <= i < old(self).parts@.len() ==> ((#[trigger] old(self).parts@[i]).model_instance
                    matches Some(hi) ==> final(world).rendering.instance_transform(hi)@
                    == st_compose(final(self).transform@, old(self).parts@[i].local_offset@)),
            forall|i: int|
                0 <= i < old(self).parts@.len() ==> ((#[trigger] old(self).parts@[i]).collider_instance
                    matches Some(hc) ==> final(world).physics.collider_position(hc) == final(self).transform.position@ && final(world).physics.collider_rotation(hc) == final(self).transform.rotation@),
            forall|h: Handle|
                #[trigger] final(world).physics.body_live(h) == old(world).physics.body_live(h),
            forall|h: Handle|
                old(world).physics.body_live(h) ==> #[trigger] final(world).physics.body_position(
                    h,
                ) == old(world).physics.body_position(h),
            forall|h: Handle|
                old(world).physics.body_live(h) ==> #[trigger] final(world).physics.body_rotation(
                    h,
                ) == old(world).physics.body_rotation(h),
            forall|h: Handle|
                #[trigger] final(world).physics.body_stale(h) == old(world).physics.body_stale(h),
            forall|h: Handle|
                #[trigger] final(world).physics.collider_live(h) == old(world).physics.collider_live(h),
            forall|h: Handle|
                #[trigger] final(world).physics.collider_stale(h) == old(world).physics.collider_stale(h),
            forall|h: Handle|
                old(world).physics.collider_live(h) ==> #[trigger] final(world).physics.collider_parent(h)
                    == old(world).physics.collider_parent(h),
            forall|h: Handle|
                #[trigger] final(world).rendering.has_instance(h) == old(world).rendering.has_instance(h),
            forall|h: Handle|
                #[trigger] final(world).rendering.stale_instance(h) == old(world).rendering.stale_instance(h),
            forall|h: Handle|
                !craft_owns_instance(old(self).parts@, h) && old(world).rendering.has_instance(h)
                    ==> #[trigger] final(world).rendering.instance_transform(h) == old(world).rendering.instance_transform(h),
            forall|h: Handle|
                old(world).rendering.has_instance(h) ==> #[trigger] final(world).rendering.instance_type_of(h) == old(world).rendering.instance_type_of(h),
            final(world).physics.spec_gravity() == old(world).physics.spec_gravity(),
            final(world).physics.spec_body_slot_count() == old(world).physics.spec_body_slot_count(),
            final(world).physics.spec_collider_slot_count() == old(world).physics.spec_collider_slot_count(),
    {
        let _ = delta_time;
        if let Some(hb) = self.rigid_body_instance {
            let pose = world.physics.get_rigid_body_transform(hb);
            self.transform.position = pose.0;
            self.transform.rotation = pose.1;
        }
        let n = self.parts.len();
        let mut i: usize = 0;
        while i < n
            invariant
                world.physics.wf(),
                world.rendering.wf(),
                world.player_camera == old(world).player_camera,
                self.id == old(self).id,
                self.parts == old(self).parts,
                self.rigid_body_instance == old(self).rigid_body_instance,
                self.transform.wf(),
                match old(self).rigid_body_instance {
                    Some(hb) => self.transform.position@ == old(world).physics.body_position(hb)
                        && self.transform.rotation@ == old(world).physics.body_rotation(hb)
                        && self.transform.scale == old(self).transform.scale,
                    None => self.transform == old(self).transform,
                },
                i <= n,
                n == self.parts@.len(),
                old(self).links_ok(*old(world)),
                forall|j: int|
                    0 <= j < i ==> ((#[trigger] old(self).parts@[j]).model_instance matches Some(
                        hi,
                    ) ==> world.rendering.instance_transform(hi)@ == st_compose(
                        self.transform@,
                        old(self).parts@[j].local_offset@,
                    )),
                forall|j: int|
                    0 <= j < i ==> ((#[trigger] old(self).parts@[j]).collider_instance matches Some(
                        hc,
                    ) ==> world.physics.collider_position(hc) == self.transform.position@
                        && world.physics.collider_rotation(hc) == self.transform.rotation@),
                forall|h: Handle|
                    #[trigger] world.physics.body_live(h) == old(world).physics.body_live(h),
                forall|h: Handle|
                    old(world).physics.body_live(h) ==> #[trigger] world.physics.body_position(h)
                        == old(world).physics.body_position(h),
                forall|h: Handle|
                    old(world).physics.body_live(h) ==> #[trigger] world.physics.body_rotation(h)
                        == old(world).physics.body_rotation(h),
                forall|h: Handle|
                    #[trigger] world.physics.body_stale(h) == old(world).physics.body_stale(h),
                forall|h: Handle|
                    #[trigger] world.physics.collider_live(h) == old(world).physics.collider_live(
                        h,
                    ),
                forall|h: Handle|
                    #[trigger] world.physics.collider_stale(h) == old(world).physics.collider_stale(h),
                forall|h: Handle|
                    old(world).physics.collider_live(h) ==> #[trigger] world.physics.collider_parent(
                        h,
                    ) == old(world).physics.collider_parent(h),
                forall|h: Handle|
                    #[trigger] world.rendering.has_instance(h) == old(world).rendering.has_instance(
                        h,
                    ),
                forall|h: Handle|
                    #[trigger] world.rendering.stale_instance(h) == old(world).rendering.stale_instance(h),
                forall|h: Handle|
                    !craft_owns_instance(old(self).parts@.take(i as int), h) && old(world).rendering.has_instance(h) ==> #[trigger] world.rendering.instance_transform(
                        h,
                    ) == old(world).rendering.instance_transform(h),
                forall|h: Handle|
                    old(world).rendering.has_instance(h) ==> #[trigger] world.rendering.instance_type_of(
                        h,
                    ) == old(world).rendering.instance_type_of(h),
                world.physics.spec_gravity() == old(world).physics.spec_gravity(),
                world.physics.spec_body_slot_count() == old(world).physics.spec_body_slot_count(),
                world.physics.spec_collider_slot_count() == old(world).physics.spec_collider_slot_count(),
            decreases n - i,
        {
            let ghost prefix = old(self).parts@.take(i as int);
            let ghost next_prefix = old(self).parts@.take(i as int + 1);
            proof {
                assert(next_prefix =~= prefix.push(old(self).parts@[i as int]));
            }
            if let Some(hc) = self.parts[i].collider_instance {
                world.physics.set_collider_transform(
                    hc,
                    self.transform.position,
                    self.transform.rotation,
                );
            }
            if let Some(hi) = self.parts[i].model_instance {
                let offset = self.parts[i].local_offset;
                let world_transform = self.transform.compose(offset);
                world.rendering.update_instance(hi, &world_transform);
            }
            proof {
                assert forall|j: int|
                    0 <= j < i + 1 implies ((#[trigger] old(self).parts@[j]).model_instance
                    matches Some(hi) ==> world.rendering.instance_transform(hi)@ == st_compose(
                    self.transform@,
                    old(self).parts@[j].local_offset@,
                )) by {
                    if j < i as int {
                        if old(self).parts@[j].model_instance is Some {
                            let hij = old(self).parts@[j].model_instance->0;
                            if old(self).parts@[i as int].model_instance == Some(hij) {
                                assert(false);
                            }
                        }
                    }
                }
                assert forall|j: int|
                    0 <= j < i + 1 implies ((#[trigger] old(self).parts@[j]).collider_instance
                    matches Some(hc) ==> world.physics.collider_position(hc)
                    == self.transform.position@ && world.physics.collider_rotation(hc)
                    == self.transform.rotation@) by {
                    if j < i as int {
                        if old(self).parts@[j].collider_instance is Some {
                            let hcj = old(self).parts@[j].collider_instance->0;
                            if old(self).parts@[i as int].collider_instance == Some(hcj) {
                                assert(false);
                            }
                        }
                    }
                }
                assert forall|h: Handle|
                    !craft_owns_instance(next_prefix, h) && old(world).rendering.has_instance(h)
                        implies #[trigger] world.rendering.instance_transform(h) == old(world).rendering.instance_transform(h) by {
                    assert(!craft_owns_instance(prefix, h)) by {
                        if craft_owns_instance(prefix, h) {
                            let j = choose|j: int|
                                0 <= j < prefix.len() && (#[trigger] prefix[j]).model_instance
                                    == Some(h);
                            assert(next_prefix[j].model_instance == Some(h));
                        }
                    }
                    if old(self).parts@[i as int].model_instance == Some(h) {
                        assert(next_prefix[i as int].model_instance == Some(h));
                        assert(craft_owns_instance(next_prefix, h));
                    }
                }
            }
            i = i + 1;
        }
        proof {
            assert(old(self).parts@.take(n as int) =~= old(self).parts@);
            assert forall|k: int|
                0 <= k < self.parts@.len() implies ((#[trigger] self.parts@[k]).model_instance
                matches Some(h) ==> world.rendering.has_instance(h)) by {
                assert(self.parts@[k] == old(self).parts@[k]);
            }
            assert forall|k: int|
                0 <= k < self.parts@.len() implies ((#[trigger] self.parts@[k]).collider_instance
                matches Some(h) ==> world.physics.collider_live(h)) by {
                assert(self.parts@[k] == old(self).parts@[k]);
            }
            assert forall|k: int|
                0 <= k < self.parts@.len() implies ((#[trigger] self.parts@[k]).collider_instance
                matches Some(h) ==> (self.rigid_body_instance matches Some(hb)
                && world.physics.collider_parent(h) == hb)) by {
                assert(self.parts@[k] == old(self).parts@[k]);
                if self.parts@[k].collider_instance is Some {
                    let h = self.parts@[k].collider_instance->0;
                    assert(old(self).parts@[k].collider_instance == Some(h));
                    assert(old(world).physics.collider_live(h));
                    assert(world.physics.collider_parent(h) == old(world).physics.collider_parent(
                        h,
                    ));
                }
            }
        }
    }
}

/// A simulated object: one of the closed set of variants, dispatched by
/// a single match in the world's update loop.
pub enum Entity {
    Player(Player),
    Dynamic(DynamicEntity),
    Craft(SpaceCraft),
}

/// The variant owns nothing in any world yet.
pub open spec fn entity_unregistered(e: Entity) -> bool {
    match e {
        Entity::Player(p) => p.wf(),
        Entity::Dynamic(d) => d.unregistered() && d.desc_wf(),
        Entity::Craft(c) => c.unregistered() && c.desc_wf(),
    }
}

/// Collider slots the variant will claim when registered.
pub open spec fn entity_collider_need(e: Entity) -> nat {
    match e {
        Entity::Player(_) => 0,
        Entity::Dynamic(_) => 1,
        Entity::Craft(c) => c.parts@.len(),
    }
}

/// Every handle the variant owns is live and correctly linked.
pub open spec fn entity_links_ok(e: Entity, info: WorldInfo) -> bool {
    match e {
        Entity::Player(p) => p.wf(),
        Entity::Dynamic(d) => d.links_ok(info),
        Entity::Craft(c) => c.links_ok(info),
    }
}

/// The variant owns render instance `h`.
pub open spec fn entity_owns_instance(e: Entity, h: Handle) -> bool {
    match e {
        Entity::Player(_) => false,
        Entity::Dynamic(d) => d.model_instance == Some(h),
        Entity::Craft(c) => craft_owns_instance(c.parts@, h),
    }
}

/// The variant owns rigid body `h`.
pub open spec fn entity_owns_body(e: Entity, h: Handle) -> bool {
    match e {
        Entity::Player(_) => false,
        Entity::Dynamic(d) => d.rigid_body_instance == Some(h),
        Entity::Craft(c) => c.rigid_body_instance == Some(h),
    }
}

/// The variant owns collider `h`.
pub open spec fn entity_owns_collider(e: Entity, h: Handle) -> bool {
    match e {
        Entity::Player(_) => false,
        Entity::Dynamic(d) => d.collider_instance == Some(h),
        Entity::Craft(c) => craft_owns_collider(c.parts@, h),
    }
}

/// The object's transform and render data agree with this frame's
/// physics pose.
pub open spec fn entity_synced(e: Entity, info: WorldInfo) -> bool {
    match e {
        Entity::Player(_) => true,
        Entity::Dynamic(d) => {
            &&& (d.rigid_body_instance matches Some(hb) ==> d.transform.position@
                == info.physics.body_position(hb) && d.transform.rotation@
                == info.physics.body_rotation(hb))
            &&& (d.model_instance matches Some(hi) ==> info.rendering.instance_transform(hi)
                == d.transform)
        },
        Entity::Craft(c) => {
            &&& (c.rigid_body_instance matches Some(hb) ==> c.transform.position@
                == info.physics.body_position(hb) && c.transform.rotation@
                == info.physics.body_rotation(hb))
            &&& forall|i: int|
                0 <= i < c.parts@.len() ==> ((#[trigger] c.parts@[i]).model_instance matches Some(
                    hi,
                ) ==> info.rendering.instance_transform(hi)@ == st_compose(
                    c.transform@,
                    c.parts@[i].local_offset@,
                ))
        },
    }
}

/// The world: physics, rendering, the camera, and the table of simulated
/// objects, advanced in the fixed frame order.
pub struct World {
    pub world_info: WorldInfo,
    pub entities: HandleTable<Entity>,
    pub player_entity: Option<Handle>,
}

impl World {
    /// Internal consistency: components are consistent, every live
    /// object's handles are live and linked, and no two live objects
    /// share a handle.
    pub closed spec fn wf(self) -> bool {
        &&& self.entities.wf()
        &&& self.world_info.physics.wf()
        &&& self.world_info.rendering.wf()
        &&& forall|he: Handle|
            #[trigger] self.entities.live(he) ==> entity_links_ok(
                self.entities.value_of(he),
                self.world_info,
            )
        &&& forall|h1: Handle, h2: Handle, hr: Handle|
            self.entities.live(h1) && self.entities.live(h2) && h1 != h2 ==> !(
            #[trigger] entity_owns_instance(self.entities.value_of(h1), hr)
                && #[trigger] entity_owns_instance(self.entities.value_of(h2), hr))
        &&& forall|h1: Handle, h2: Handle, hr: Handle|
            self.entities.live(h1) && self.entities.live(h2) && h1 != h2 ==> !(
            #[trigger] entity_owns_body(self.entities.value_of(h1), hr)
                && #[trigger] entity_owns_body(self.entities.value_of(h2), hr))
        &&& forall|h1: Handle, h2: Handle, hr: Handle|
            self.entities.live(h1) && self.entities.live(h2) && h1 != h2 ==> !(
            #[trigger] entity_owns_collider(self.entities.value_of(h1), hr)
                && #[trigger] entity_owns_collider(self.entities.value_of(h2), hr))
    }

    pub closed spec fn has_entity(self, h: Handle) -> bool {
        self.entities.live(h)
    }

    pub closed spec fn entity_stale(self, h: Handle) -> bool {
        self.entities.stale(h)
    }

    pub closed spec fn entity_of(self, h: Handle) -> Entity {
        self.entities.value_of(h)
    }

    pub closed spec fn spec_player(self) -> Option<Handle> {
        self.player_entity
    }

    pub closed spec fn spec_entity_slot_count(self) -> nat {
        self.entities.spec_slot_count()
    }

    /// An empty world.
    pub fn new() -> (w: Self)
        ensures
            w.wf(),
            forall|h: Handle| !w.has_entity(h) && !w.entity_stale(h),
            w.spec_player() is None,
            w.world_info.physics.spec_gravity() == sv_zero(),
            forall|h: Handle| !(#[trigger] w.world_info.physics.body_live(h)),
            forall|h: Handle| !(#[trigger] w.world_info.physics.collider_live(h)),
            forall|h: Handle| !(#[trigger] w.world_info.rendering.has_instance(h)),
            w.spec_entity_slot_count() == 0,
            w.world_info.physics.spec_body_slot_count() == 0,
            w.world_info.physics.spec_collider_slot_count() == 0,
    {
        World {
            world_info: WorldInfo {
                physics: PhysicsScene::new(),
                rendering: SceneRenderData::new(),
                player_camera: PerspectiveCamera::new(95 * crate::fixed::FX_ONE, crate::fixed::FX_ONE / 10),
            },
            entities: HandleTable::new(),
            player_entity: None,
        }
    }
}

/// Links survive any change that only adds liveness and keeps the
/// parents of surviving colliders.
proof fn lemma_links_monotone(e: Entity, pre: WorldInfo, post: WorldInfo)
    requires
        entity_links_ok(e, pre),
        forall|h: Handle|
            pre.rendering.has_instance(h) ==> #[trigger] post.rendering.has_instance(h),
        forall|h: Handle| pre.physics.body_live(h) ==> #[trigger] post.physics.body_live(h),
        forall|h: Handle|
            pre.physics.collider_live(h) ==> #[trigger] post.physics.collider_live(h),
        forall|h: Handle|
            pre.physics.collider_live(h) && post.physics.collider_live(h)
                ==> #[trigger] post.physics.collider_parent(h) == pre.physics.collider_parent(h),
    ensures
        entity_links_ok(e, post),
{
    match e {
        Entity::Player(_) => {},
        Entity::Dynamic(_) => {},
        Entity::Craft(c) => {
            assert forall|i: int|
                0 <= i < c.parts@.len() implies ((#[trigger] c.parts@[i]).model_instance
                matches Some(h) ==> post.rendering.has_instance(h)) by {}
            assert forall|i: int|
                0 <= i < c.parts@.len() implies ((#[trigger] c.parts@[i]).collider_instance
                matches Some(h) ==> post.physics.collider_live(h)) by {}
            assert forall|i: int|
                0 <= i < c.parts@.len() implies ((#[trigger] c.parts@[i]).collider_instance
                matches Some(h) ==> (c.rigid_body_instance matches Some(hb)
                && post.physics.collider_parent(h) == hb)) by {}
        },
    }
}

/// Links survive the removal of another object's handles: nothing the
/// two objects own overlaps, so everything this one owns stays live.
proof fn lemma_links_removal(e: Entity, removed: Entity, pre: WorldInfo, post: WorldInfo)
    requires
        entity_links_ok(e, pre),
        forall|hr: Handle|
            !(#[trigger] entity_owns_instance(e, hr) && #[trigger] entity_owns_instance(
                removed,
                hr,
            )),
        forall|hr: Handle|
            !(#[trigger] entity_owns_body(e, hr) && #[trigger] entity_owns_body(removed, hr)),
        forall|hr: Handle|
            !(#[trigger] entity_owns_collider(e, hr) && #[trigger] entity_owns_collider(
                removed,
                hr,
            )),
        forall|h: Handle|
            pre.rendering.has_instance(h) && !entity_owns_instance(removed, h)
                ==> #[trigger] post.rendering.has_instance(h),
        forall|h: Handle|
            pre.physics.body_live(h) && !entity_owns_body(removed, h)
                ==> #[trigger] post.physics.body_live(h),
        forall|h: Handle|
            pre.physics.collider_live(h) && !entity_owns_collider(removed, h)
                && !entity_owns_body(removed, pre.physics.collider_parent(h))
                ==> #[trigger] post.physics.collider_live(h),
        forall|h: Handle|
            pre.physics.collider_live(h) && post.physics.collider_live(h)
                ==> #[trigger] post.physics.collider_parent(h) == pre.physics.collider_parent(h),
    ensures
        entity_links_ok(e, post),
{
    match e {
        Entity::Player(_) => {},
        Entity::Dynamic(d) => {
            if d.model_instance is Some {
                let h = d.model_instance->0;
                assert(entity_owns_instance(e, h));
            }
            if d.rigid_body_instance is Some {
                let h = d.rigid_body_instance->0;
                assert(entity_owns_body(e, h));
            }
            if d.collider_instance is Some {
                let h = d.collider_instance->0;
                assert(entity_owns_collider(e, h));
                assert(d.rigid_body_instance is Some);
                assert(entity_owns_body(e, pre.physics.collider_parent(h)));
            }
        },
        Entity::Craft(c) => {
            assert forall|i: int|
                0 <= i < c.parts@.len() implies ((#[trigger] c.parts@[i]).model_instance
                matches Some(h) ==> post.rendering.has_instance(h)) by {
                if c.parts@[i].model_instance is Some {
                    let h = c.parts@[i].model_instance->0;
                    assert(craft_owns_instance(c.parts@, h));
                    assert(entity_owns_instance(e, h));
                }
            }
            if c.rigid_body_instance is Some {
                let hb = c.rigid_body_instance->0;
                assert(entity_owns_body(e, hb));
            }
            assert forall|i: int|
                0 <= i < c.parts@.len() implies ((#[trigger] c.parts@[i]).collider_instance
                matches Some(h) ==> post.physics.collider_live(h)) by {
                if c.parts@[i].collider_instance is Some {
                    let h = c.parts@[i].collider_instance->0;
                    assert(craft_owns_collider(c.parts@, h));
                    assert(entity_owns_collider(e, h));
                    assert(entity_owns_body(e, pre.physics.collider_parent(h)));
                }
            }
            assert forall|i: int|
                0 <= i < c.parts@.len() implies ((#[trigger] c.parts@[i]).collider_instance
                matches Some(h) ==> (c.rigid_body_instance matches Some(hb)
                && post.physics.collider_parent(h) == hb)) by {
                if c.parts@[i].collider_instance is Some {
                    let h = c.parts@[i].collider_instance->0;
                    assert(craft_owns_collider(c.parts@, h));
                    assert(entity_owns_collider(e, h));
                    assert(entity_owns_body(e, pre.physics.collider_parent(h)));
                    assert(post.physics.collider_live(h));
                }
            }
        },
    }
}

impl World {
    /// Insert an object, issue its identity and run its registration
    /// hook: the only place render instances and physics resources are
    /// acquired.
    pub fn add_entity(&mut self, entity: Entity) -> (id: EntityId)
        requires
            old(self).wf(),
            entity_unregistered(entity),
            old(self).spec_entity_slot_count() < 0xFFFF_FFFF,
            old(self).world_info.physics.spec_body_slot_count() < 0xFFFF_FFFF,
            old(self).world_info.physics.spec_collider_slot_count() + entity_collider_need(entity)
                < 0xFFFF_FFFF,
        ensures
            final(self).wf(),
            final(self).has_entity(id),
            !old(self).has_entity(id),
            !old(self).entity_stale(id),
            final(self).spec_player() == old(self).spec_player(),
            final(self).world_info.player_camera == old(self).world_info.player_camera,
            final(self).spec_entity_slot_count() <= old(self).spec_entity_slot_count() + 1,
            forall|h2: Handle|
                h2 != id ==> #[trigger] final(self).has_entity(h2) == old(self).has_entity(h2),
            forall|h2: Handle|
                h2 != id && old(self).has_entity(h2) ==> #[trigger] final(self).entity_of(h2)
                    == old(self).entity_of(h2),
            forall|h2: Handle|
                old(self).entity_stale(h2) ==> #[trigger] final(self).entity_stale(h2),
            entity_links_ok(final(self).entity_of(id), final(self).world_info),
            forall|h: Handle|
                !entity_owns_instance(final(self).entity_of(id), h) ==> #[trigger] final(self).world_info.rendering.has_instance(h) == old(self).world_info.rendering.has_instance(h),
            forall|h: Handle|
                !entity_owns_body(final(self).entity_of(id), h) ==> #[trigger] final(self).world_info.physics.body_live(h) == old(self).world_info.physics.body_live(h),
            forall|h: Handle|
                !entity_owns_collider(final(self).entity_of(id), h) ==> #[trigger] final(self).world_info.physics.collider_live(h) == old(self).world_info.physics.collider_live(h),
            (entity matches Entity::Player(p) ==> final(self).entity_of(id) == Entity::Player(
                Player {
                    id: Some(id),
                    transform: p.transform,
                    linear_input: p.linear_input,
                    angular_input: p.angular_input,
                },
            )),
            (entity matches Entity::Dynamic(d) ==> (final(self).entity_of(id)
                matches Entity::Dynamic(d2) && d2.transform == d.transform && d2.model == d.model
                && d2.collider == d.collider && (d2.rigid_body_instance is Some) == (d.collider
                is Some) && (d2.collider_instance is Some) == (d.collider is Some) && (
            d.model matches Some(mm) && !old(self).world_info.rendering.at_capacity(
                InstanceType { mesh: mm.0, material: mm.1 },
            ) ==> d2.model_instance is Some))),
            (entity matches Entity::Craft(c) ==> (final(self).entity_of(id)
                matches Entity::Craft(c2) && c2.transform == c.transform && c2.parts@.len()
                == c.parts@.len() && c2.rigid_body_instance is Some)),
    {
        let ghost pre = *self;
        let id = self.entities.insert(entity);
        match self.entities.get_mut(id) {
            Some(e) => {
                match e {
                    Entity::Player(p) => {
                        p.set_id(id);
                    },
                    Entity::Dynamic(d) => {
                        d.id = Some(id);
                        d.add_to_world(&mut self.world_info);
                    },
                    Entity::Craft(c) => {
                        c.id = Some(id);
                        c.add_to_world(&mut self.world_info);
                    },
                }
            },
            None => {},
        }
        proof {
            let new_e = self.entities.value_of(id);
            let pre_info = pre.world_info;
            let post_info = self.world_info;
            assert forall|he: Handle|
                #[trigger] self.entities.live(he) implies entity_links_ok(
                self.entities.value_of(he),
                self.world_info,
            ) by {
                if he != id {
                    assert(pre.entities.live(he));
                    assert(entity_links_ok(pre.entities.value_of(he), pre_info));
                    assert forall|h: Handle|
                        pre_info.rendering.has_instance(h)
                            implies #[trigger] post_info.rendering.has_instance(h) by {
                        assert(!entity_owns_instance(new_e, h));
                    }
                    assert forall|h: Handle|
                        pre_info.physics.body_live(h) implies #[trigger] post_info.physics.body_live(
                        h,
                    ) by {
                        assert(!entity_owns_body(new_e, h));
                    }
                    assert forall|h: Handle|
                        pre_info.physics.collider_live(h)
                            implies #[trigger] post_info.physics.collider_live(h) by {
                        assert(!entity_owns_collider(new_e, h));
                    }
                    lemma_links_monotone(pre.entities.value_of(he), pre_info, post_info);
                }
            }
            assert forall|h1: Handle, h2: Handle, hr: Handle|
                self.entities.live(h1) && self.entities.live(h2) && h1 != h2 implies !(
            #[trigger] entity_owns_instance(self.entities.value_of(h1), hr)
                && #[trigger] entity_owns_instance(self.entities.value_of(h2), hr)) by {
                if entity_owns_instance(self.entities.value_of(h1), hr) && entity_owns_instance(
                    self.entities.value_of(h2),
                    hr,
                ) {
                    if h1 != id && h2 != id {
                        assert(pre.entities.live(h1) && pre.entities.live(h2));
                    } else {
                        let other = if h1 == id { h2 } else { h1 };
                        assert(pre.entities.live(other));
                        assert(entity_links_ok(pre.entities.value_of(other), pre_info));
                        assert(entity_owns_instance(self.entities.value_of(other), hr));
                        assert(entity_owns_instance(new_e, hr));
                        assert(pre_info.rendering.has_instance(hr)) by {
                            let oe = pre.entities.value_of(other);
                            match oe {
                                Entity::Player(_) => {},
                                Entity::Dynamic(_) => {},
                                Entity::Craft(c) => {
                                    let j = choose|j: int|
                                        0 <= j < c.parts@.len() && (
                                        #[trigger] c.parts@[j]).model_instance == Some(hr);
                                },
                            }
                        }
                    }
                }
            }
            assert forall|h1: Handle, h2: Handle, hr: Handle|
                self.entities.live(h1) && self.entities.live(h2) && h1 != h2 implies !(
            #[trigger] entity_owns_body(self.entities.value_of(h1), hr)
                && #[trigger] entity_owns_body(self.entities.value_of(h2), hr)) by {
                if entity_owns_body(self.entities.value_of(h1), hr) && entity_owns_body(
                    self.entities.value_of(h2),
                    hr,
                ) {
                    if h1 != id && h2 != id {
                        assert(pre.entities.live(h1) && pre.entities.live(h2));
                    } else {
                        let other = if h1 == id { h2 } else { h1 };
                        assert(pre.entities.live(other));
                        assert(entity_links_ok(pre.entities.value_of(other), pre_info));
                        assert(entity_owns_body(self.entities.value_of(other), hr));
                        assert(entity_owns_body(new_e, hr));
                        assert(pre_info.physics.body_live(hr));
                    }
                }
            }
            assert forall|h1: Handle, h2: Handle, hr: Handle|
                self.entities.live(h1) && self.entities.live(h2) && h1 != h2 implies !(
            #[trigger] entity_owns_collider(self.entities.value_of(h1), hr)
                && #[trigger] entity_owns_collider(self.entities.value_of(h2), hr)) by {
                if entity_owns_collider(self.entities.value_of(h1), hr) && entity_owns_collider(
                    self.entities.value_of(h2),
                    hr,
                ) {
                    if h1 != id && h2 != id {
                        assert(pre.entities.live(h1) && pre.entities.live(h2));
                    } else {
                        let other = if h1 == id { h2 } else { h1 };
                        assert(pre.entities.live(other));
                        assert(entity_links_ok(pre.entities.value_of(other), pre_info));
                        assert(entity_owns_collider(self.entities.value_of(other), hr));
                        assert(entity_owns_collider(new_e, hr));
                        assert(pre_info.physics.collider_live(hr)) by {
                            let oe = pre.entities.value_of(other);
                            match oe {
                                Entity::Player(_) => {},
                                Entity::Dynamic(_) => {},
                                Entity::Craft(c) => {
                                    let j = choose|j: int|
                                        0 <= j < c.parts@.len() && (
                                        #[trigger] c.parts@[j]).collider_instance == Some(hr);
                                },
                            }
                        }
                    }
                }
            }
        }
        id
    }
}

impl World {
    /// Remove an object: run its release hook (dropping its render
    /// instance, colliders and body), erase it from the table, and clear
    /// the player role if it held it. No other object's handles are
    /// touched.
    pub fn remove_entity(&mut self, entity_id: EntityId)
        requires
            old(self).wf(),
        ensures
            final(self).wf(),
            !final(self).has_entity(entity_id),
            old(self).has_entity(entity_id) ==> final(self).entity_stale(entity_id),
            final(self).world_info.player_camera == old(self).world_info.player_camera,
            final(self).spec_player() == (if old(self).spec_player() == Some(entity_id) {
                Option::<Handle>::None
            } else {
                old(self).spec_player()
            }),
            forall|h2: Handle|
                h2 != entity_id ==> #[trigger] final(self).has_entity(h2) == old(self).has_entity(
                    h2,
                ),
            forall|h2: Handle|
                h2 != entity_id && old(self).has_entity(h2) ==> #[trigger] final(self).entity_of(
                    h2,
                ) == old(self).entity_of(h2),
            forall|h2: Handle|
                old(self).entity_stale(h2) ==> #[trigger] final(self).entity_stale(h2),
            old(self).has_entity(entity_id) ==> {
                let e = old(self).entity_of(entity_id);
                &&& forall|h: Handle|
                    entity_owns_instance(e, h) ==> !(#[trigger] final(self).world_info.rendering.has_instance(h))
                &&& forall|h: Handle|
                    entity_owns_instance(e, h) ==> #[trigger] final(self).world_info.rendering.stale_instance(h)
                &&& forall|h: Handle|
                    entity_owns_body(e, h) ==> !(#[trigger] final(self).world_info.physics.body_live(h))
                &&& forall|h: Handle|
                    entity_owns_collider(e, h) ==> !(#[trigger] final(self).world_info.physics.collider_live(h))
                &&& forall|h: Handle|
                    !entity_owns_instance(e, h) ==> #[trigger] final(self).world_info.rendering.has_instance(h) == old(self).world_info.rendering.has_instance(h)
                &&& forall|h: Handle|
                    !entity_owns_body(e, h) ==> #[trigger] final(self).world_info.physics.body_live(
                        h,
                    ) == old(self).world_info.physics.body_live(h)
                &&& forall|h: Handle|
                    !entity_owns_collider(e, h) && (old(self).world_info.physics.collider_live(h)
                        ==> !entity_owns_body(
                        e,
                        old(self).world_info.physics.collider_parent(h),
                    )) ==> #[trigger] final(self).world_info.physics.collider_live(h) == old(self).world_info.physics.collider_live(h)
            },
            !old(self).has_entity(entity_id) ==> final(self).world_info == old(self).world_info,
    {
        let ghost pre = *self;
        let removed = self.entities.remove(entity_id);
        match removed {
            Some(entity) => {
                let mut entity = entity;
                match &mut entity {
                    Entity::Player(_) => {},
                    Entity::Dynamic(d) => {
                        d.remove_from_world(&mut self.world_info);
                    },
                    Entity::Craft(c) => {
                        c.remove_from_world(&mut self.world_info);
                    },
                }
                match self.player_entity {
                    Some(p) => {
                        if p.index == entity_id.index && p.generation == entity_id.generation {
                            self.player_entity = None;
                        }
                    },
                    None => {},
                }
                proof {
                    let e0 = pre.entities.value_of(entity_id);
                    let pre_info = pre.world_info;
                    let post_info = self.world_info;
                    assert forall|he: Handle|
                        #[trigger] self.entities.live(he) implies entity_links_ok(
                        self.entities.value_of(he),
                        self.world_info,
                    ) by {
                        assert(pre.entities.live(he));
                        assert(he != entity_id);
                        assert(entity_links_ok(pre.entities.value_of(he), pre_info));
                        lemma_links_removal(pre.entities.value_of(he), e0, pre_info, post_info);
                    }
                }
            },
            None => {
                match self.player_entity {
                    Some(p) => {
                        if p.index == entity_id.index && p.generation == entity_id.generation {
                            self.player_entity = None;
                        }
                    },
                    None => {},
                }
            },
        }
    }

    /// Assign the object that receives input and carries the camera.
    pub fn set_player(&mut self, player_id: EntityId)
        ensures
            *final(self) == (World { player_entity: Some(player_id), ..*old(self) }),
    {
        self.player_entity = Some(player_id);
    }

    /// Forward this frame's axis input to the player object, if one is
    /// assigned and alive. Non-controllable objects ignore input.
    pub fn update_player_input(&mut self, linear_input: Vec3Fx, angular_input: Vec3Fx)
        requires
            old(self).wf(),
            sv_bounded(linear_input@, crate::fixed::FX_ONE as int),
            sv_bounded(angular_input@, crate::fixed::FX_ONE as int),
        ensures
            final(self).wf(),
            final(self).world_info == old(self).world_info,
            final(self).spec_player() == old(self).spec_player(),
            forall|h2: Handle|
                #[trigger] final(self).has_entity(h2) == old(self).has_entity(h2),
            forall|h2: Handle|
                #[trigger] final(self).entity_stale(h2) == old(self).entity_stale(h2),
            forall|h2: Handle|
                old(self).spec_player() != Some(h2) && old(self).has_entity(h2)
                    ==> #[trigger] final(self).entity_of(h2) == old(self).entity_of(h2),
            (match old(self).spec_player() {
                Some(hp) => old(self).has_entity(hp) ==> (match old(self).entity_of(hp) {
                    Entity::Player(p) => final(self).entity_of(hp) == Entity::Player(
                        Player { linear_input, angular_input, ..p },
                    ),
                    Entity::Dynamic(_) => final(self).entity_of(hp) == old(self).entity_of(hp),
                    Entity::Craft(_) => final(self).entity_of(hp) == old(self).entity_of(hp),
                }),
                None => true,
            }),
    {
        let target = self.player_entity;
        if let Some(hp) = target {
            match self.entities.get_mut(hp) {
                Some(e) => {
                    match e {
                        Entity::Player(p) => {
                            p.update_player_input(linear_input, angular_input);
                        },
                        Entity::Dynamic(d) => {
                            d.update_player_input(linear_input, angular_input);
                        },
                        Entity::Craft(_) => {},
                    }
                },
                None => {},
            }
        }
    }

    /// The camera parameters and the camera transform of the player
    /// object; the identity transform when no live player carries one.
    pub fn get_player_camera(&self) -> (r: (PerspectiveCamera, Transform))
        requires
            self.wf(),
        ensures
            r.0 == self.world_info.player_camera,
            (match self.spec_player() {
                Some(hp) => {
                    if self.has_entity(hp) {
                        match self.entity_of(hp) {
                            Entity::Player(p) => r.1 == p.transform,
                            Entity::Dynamic(_) => r.1@ == crate::transform::st_identity(),
                            Entity::Craft(_) => r.1@ == crate::transform::st_identity(),
                        }
                    } else {
                        r.1@ == crate::transform::st_identity()
                    }
                },
                None => r.1@ == crate::transform::st_identity(),
            }),
    {
        let mut camera_transform = Transform::default();
        if let Some(hp) = self.player_entity {
            match self.entities.get(hp) {
                Some(e) => {
                    match e {
                        Entity::Player(p) => {
                            match p.get_camera_transform() {
                                Some(t) => {
                                    camera_transform = t;
                                },
                                None => {},
                            }
                        },
                        Entity::Dynamic(_) => {},
                        Entity::Craft(_) => {},
                    }
                },
                None => {},
            }
        }
        (self.world_info.player_camera, camera_transform)
    }
}

impl World {
    /// Advance one frame: step the physics world once, then run every
    /// object's update hook in table order. Hooks read this frame's
    /// physics pose and refresh render data; none writes a body pose, so
    /// when this returns every object and its render instance carry
    /// exactly this frame's step — never the previous frame's.
    pub fn update(&mut self, delta_time: i64)
        requires
            old(self).wf(),
            0 <= delta_time <= MAX_DELTA_TIME,
        ensures
            final(self).wf(),
            final(self).spec_player() == old(self).spec_player(),
            final(self).world_info.player_camera == old(self).world_info.player_camera,
            forall|h2: Handle|
                #[trigger] final(self).has_entity(h2) == old(self).has_entity(h2),
            forall|h2: Handle|
                #[trigger] final(self).entity_stale(h2) == old(self).entity_stale(h2),
            forall|h: Handle|
                #[trigger] final(self).world_info.rendering.has_instance(h) == old(self).world_info.rendering.has_instance(h),
            forall|h: Handle|
                #[trigger] final(self).world_info.physics.body_live(h) == old(self).world_info.physics.body_live(h),
            forall|h: Handle|
                #[trigger] final(self).world_info.physics.collider_live(h) == old(self).world_info.physics.collider_live(h),
            // the physics pose every object sees is this frame's step
            forall|h: Handle|
                old(self).world_info.physics.body_live(h) && old(self).world_info.physics.body_kind(h) is Dynamic ==> #[trigger] final(self).world_info.physics.body_position(h) == crate::physics::spec_step_position(
                    old(self).world_info.physics.body_position(h),
                    crate::physics::spec_step_velocity(
                        old(self).world_info.physics.body_linear_velocity(h),
                        old(self).world_info.physics.spec_gravity(),
                        delta_time as int,
                    ),
                    delta_time as int,
                ),
            forall|h: Handle|
                old(self).world_info.physics.body_live(h) && old(self).world_info.physics.body_kind(h) is Dynamic ==> #[trigger] final(self).world_info.physics.body_rotation(h) == crate::physics::spec_step_rotation(
                    old(self).world_info.physics.body_rotation(h),
                    old(self).world_info.physics.body_angular_velocity(h),
                    delta_time as int,
                ),
            // and every object has adopted it
            forall|he: Handle|
                old(self).has_entity(he) ==> entity_synced(
                    #[trigger] final(self).entity_of(he),
                    final(self).world_info,
                ),
    {
        self.world_info.physics.step_physics(delta_time);
        let ghost stepped = *self;
        let n = self.entities.slot_count();
        let mut i: usize = 0;
        while i < n
            invariant
                0 <= delta_time <= MAX_DELTA_TIME,
                i <= n,
                n == self.entities.spec_slot_count(),
                self.wf(),
                self.player_entity == stepped.player_entity,
                self.world_info.player_camera == stepped.world_info.player_camera,
                forall|h2: Handle|
                    #[trigger] self.entities.live(h2) == stepped.entities.live(h2),
                forall|h2: Handle|
                    #[trigger] self.entities.stale(h2) == stepped.entities.stale(h2),
                forall|h2: Handle|
                    stepped.entities.live(h2) && h2.index as int >= i
                        ==> #[trigger] self.entities.value_of(h2) == stepped.entities.value_of(
                        h2,
                    ),
                forall|h: Handle|
                    #[trigger] self.world_info.rendering.has_instance(h)
                        == stepped.world_info.rendering.has_instance(h),
                forall|h: Handle|
                    #[trigger] self.world_info.rendering.stale_instance(h)
                        == stepped.world_info.rendering.stale_instance(h),
                forall|h: Handle|
                    #[trigger] self.world_info.physics.body_live(h)
                        == stepped.world_info.physics.body_live(h),
                forall|h: Handle|
                    #[trigger] self.world_info.physics.body_stale(h)
                        == stepped.world_info.physics.body_stale(h),
                forall|h: Handle|
                    stepped.world_info.physics.body_live(h)
                        ==> #[trigger] self.world_info.physics.body_position(h)
                        == stepped.world_info.physics.body_position(h),
                forall|h: Handle|
                    stepped.world_info.physics.body_live(h)
                        ==> #[trigger] self.world_info.physics.body_rotation(h)
                        == stepped.world_info.physics.body_rotation(h),
                forall|h: Handle|
                    #[trigger] self.world_info.physics.collider_live(h)
                        == stepped.world_info.physics.collider_live(h),
                forall|h: Handle|
                    #[trigger] self.world_info.physics.collider_stale(h)
                        == stepped.world_info.physics.collider_stale(h),
                forall|he: Handle|
                    stepped.entities.live(he) && (he.index as int) < i ==> entity_synced(
                        #[trigger] self.entities.value_of(he),
                        self.world_info,
                    ),
            decreases n - i,
        {
            let ghost iter_pre = *self;
            match self.entities.handle_at(i) {
                Some(he) => {
                    match self.entities.get_mut(he) {
                        Some(e) => {
                            match e {
                                Entity::Player(p) => {
                                    p.update(delta_time);
                                },
                                Entity::Dynamic(d) => {
                                    d.update(&mut self.world_info, delta_time);
                                },
                                Entity::Craft(c) => {
                                    c.update(&mut self.world_info, delta_time);
                                },
                            }
                        },
                        None => {},
                    }
                    proof {
                        let cur = self.entities.value_of(he);
                        let prev = iter_pre.entities.value_of(he);
                        assert(entity_links_ok(prev, iter_pre.world_info));
                        assert forall|hr: Handle|
                            #[trigger] entity_owns_instance(cur, hr) == entity_owns_instance(
                            prev,
                            hr,
                        ) by {
                            match cur {
                                Entity::Player(_) => {},
                                Entity::Dynamic(_) => {},
                                Entity::Craft(c2) => {},
                            }
                        }
                        assert forall|hr: Handle|
                            #[trigger] entity_owns_body(cur, hr) == entity_owns_body(prev, hr) by {
                        }
                        assert forall|hr: Handle|
                            #[trigger] entity_owns_collider(cur, hr) == entity_owns_collider(
                            prev,
                            hr,
                        ) by {
                        }
                        assert forall|he2: Handle|
                            #[trigger] self.entities.live(he2) implies entity_links_ok(
                            self.entities.value_of(he2),
                            self.world_info,
                        ) by {
                            if he2 == he {
                            } else {
                                assert(entity_links_ok(
                                    iter_pre.entities.value_of(he2),
                                    iter_pre.world_info,
                                ));
                                lemma_links_monotone(
                                    iter_pre.entities.value_of(he2),
                                    iter_pre.world_info,
                                    self.world_info,
                                );
                            }
                        }
                        assert forall|he2: Handle|
                            stepped.entities.live(he2) && (he2.index as int) < i + 1
                                implies entity_synced(
                            #[trigger] self.entities.value_of(he2),
                            self.world_info,
                        ) by {
                            if he2 == he {
                                match cur {
                                    Entity::Player(_) => {},
                                    Entity::Dynamic(_) => {},
                                    Entity::Craft(c2) => {
                                        assert(entity_synced(cur, self.world_info));
                                    },
                                }
                            } else if he2.index as int == i as int {
                                self.entities.lemma_live_unique_at_index(he2, he);
                            } else {
                                assert((he2.index as int) < i);
                                assert(entity_synced(
                                    iter_pre.entities.value_of(he2),
                                    iter_pre.world_info,
                                ));
                                let e2 = iter_pre.entities.value_of(he2);
                                assert(self.entities.value_of(he2) == e2);
                                assert(iter_pre.entities.live(he2));
                                assert(entity_links_ok(e2, iter_pre.world_info));
                                match e2 {
                                    Entity::Player(_) => {},
                                    Entity::Dynamic(d2) => {
                                        if d2.model_instance is Some {
                                            let hi = d2.model_instance->0;
                                            assert(entity_owns_instance(e2, hi));
                                            assert(!entity_owns_instance(prev, hi));
                                            assert(iter_pre.world_info.rendering.has_instance(hi));
                                            assert(self.world_info.rendering.instance_transform(hi)
                                                == iter_pre.world_info.rendering.instance_transform(
                                                hi,
                                            ));
                                        }
                                    },
                                    Entity::Craft(c2) => {
                                        assert forall|k: int|
                                            0 <= k < c2.parts@.len() implies ((
                                        #[trigger] c2.parts@[k]).model_instance matches Some(hi)
                                            ==> self.world_info.rendering.instance_transform(hi)@
                                            == st_compose(
                                            c2.transform@,
                                            c2.parts@[k].local_offset@,
                                        )) by {
                                            if c2.parts@[k].model_instance is Some {
                                                let hi = c2.parts@[k].model_instance->0;
                                                assert(craft_owns_instance(c2.parts@, hi));
                                                assert(entity_owns_instance(e2, hi));
                                                assert(!entity_owns_instance(prev, hi));
                                                assert(iter_pre.world_info.rendering.has_instance(
                                                    hi,
                                                ));
                                                assert(self.world_info.rendering.instance_transform(
                                                    hi,
                                                ) == iter_pre.world_info.rendering.instance_transform(
                                                    hi,
                                                ));
                                            }
                                        }
                                    },
                                }
                            }
                        }
                    }
                },
                None => {
                    proof {
                        assert forall|he2: Handle|
                            stepped.entities.live(he2) && (he2.index as int) < i + 1
                                implies entity_synced(
                            #[trigger] self.entities.value_of(he2),
                            self.world_info,
                        ) by {
                            if he2.index as int == i as int {
                                assert(!self.entities.live(he2));
                            }
                        }
                    }
                },
            }
            i = i + 1;
        }
        proof {
            assert forall|he: Handle|
                old(self).has_entity(he) implies entity_synced(
                #[trigger] self.entities.value_of(he),
                self.world_info,
            ) by {
                assert(self.entities.live(he));
                self.entities.lemma_live_index(he);
            }
        }
    }
}

} // verus!
