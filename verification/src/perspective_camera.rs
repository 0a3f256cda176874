//! Perspective camera parameters.
//!
//! The core only stores the field of view and near plane; the projection
//! matrices are computed by the renderer outside this crate.

use vstd::prelude::*;
use crate::fixed::FX_ONE;

verus! {

/// Horizontal field of view (16.16 degrees) and near plane distance.
#[derive(Clone, Copy, Debug, PartialEq, Eq, Structural)]
pub struct PerspectiveCamera {
    pub x_fov_deg: i64,
    pub z_near: i64,
}

impl Default for PerspectiveCamera {
    /// 75 degrees of horizontal field of view, near plane at 0.1.
    fn default() -> (c: Self)
        ensures
            c.x_fov_deg == 75 * FX_ONE,
            c.z_near == FX_ONE / 10,
    {
        PerspectiveCamera { x_fov_deg: 75 * FX_ONE, z_near: FX_ONE / 10 }
    }
}

impl PerspectiveCamera {
    pub fn new(x_fov_deg: i64, z_near: i64) -> (c: Self)
        ensures
            c.x_fov_deg == x_fov_deg,
            c.z_near == z_near,
    {
        PerspectiveCamera { x_fov_deg, z_near }
    }
}

} // verus!
