//! Plain data model for module definitions: a renderable model reference
//! and an optional collision volume.

use vstd::prelude::*;
use crate::math::{QuatFx, Vec3Fx};

verus! {

/// A mesh / material pair referenced by asset name.
#[derive(Clone, Debug)]
pub struct Model {
    pub mesh: String,
    pub material: String,
}

/// The shape of a module's collision volume, in fixed-point dimensions.
#[derive(Clone, Copy, Debug, PartialEq, Eq)]
pub enum ColliderType {
    Sphere(i64),
    Cuboid([i64; 3]),
    Capsule(i64, i64),
    Cylinder(i64, i64),
}

/// A collision volume with an optional offset from the module's origin.
#[derive(Clone, Copy, Debug, PartialEq, Eq)]
pub struct Collider {
    pub collider: ColliderType,
    pub offset: Option<(Vec3Fx, QuatFx)>,
}

/// One module: what it looks like and how it collides.
#[derive(Clone, Debug)]
pub struct Module {
    pub model: Option<Model>,
    pub collider: Option<Collider>,
}

} // verus!
