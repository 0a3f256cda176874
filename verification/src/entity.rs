//! Plain data model for entity definitions loaded from structured text
//! files: a named entity, its optional rigid-body kind, and per-node
//! render and collision data. Numeric fields are 16.16 fixed point.

use vstd::prelude::*;
use crate::math::Vec3Fx;
use crate::transform::Transform;

verus! {

/// How the physics world simulates a body: fixed in place, moved by the
/// game, or fully simulated.
#[derive(Clone, Copy, Debug, PartialEq, Eq, Structural)]
pub enum RigidBodyType {
    Static,
    Kinematic,
    Dynamic,
}

/// The shape of a collision volume in an entity definition.
#[derive(Clone, Copy, Debug, PartialEq, Eq, Structural)]
pub enum ColliderType {
    Sphere(i64),
    Cuboid(Vec3Fx),
    Capsule(i64, i64),
    Cylinder(i64, i64),
}

/// A named entity definition.
#[derive(Clone, Debug)]
pub struct Entity {
    pub name: String,
    pub rigid_body_type: Option<RigidBodyType>,
}

/// One renderable / collidable node of an entity definition.
#[derive(Clone, Debug)]
pub struct EntityNode {
    pub local_transform: Transform,
    pub mesh: Option<String>,
    pub material: Option<String>,
    pub collider: Option<Collider>,
}

/// A collision volume with its mass.
#[derive(Clone, Copy, Debug, PartialEq, Eq, Structural)]
pub struct Collider {
    pub mass: i64,
    pub collider: ColliderType,
}

} // verus!
