//! The player: a camera-bearing, input-driven object.
//!
//! Input arrives as two axis vectors with components in the unit range;
//! the update integrates them into the player's transform with the same
//! first-order fixed-point rotation steps the physics world uses.

use vstd::prelude::*;
use crate::fixed::{spec_clamp_rot, spec_fx_mul, COORD_MAX, FX_ONE, ROT_MAX};
use crate::handle::Handle;
use crate::math::{
    sq_clamp, sq_mul, sv_add, sv_bounded, sv_clamp, sv_fx_scale, sq_rotate, Q4, QuatFx, V3,
    Vec3Fx,
};
use crate::transform::Transform;

verus! {

/// Movement speed, world units per second (16.16).
pub const CAMERA_MOVE_SPEED: i64 = 5 * FX_ONE;

/// Largest timestep one frame may integrate (16.16 seconds).
pub const MAX_DELTA_TIME: i64 = 0x800_0000;

/// An axis value from a pair of opposing key states: full positive, full
/// negative, or zero when neither or both are held.
pub fn keys_to_axis(positive_held: bool, negative_held: bool) -> (r: i64)
    ensures
        r == (if positive_held && !negative_held {
            FX_ONE as int
        } else if !positive_held && negative_held {
            -(FX_ONE as int)
        } else {
            0
        }),
{
    if positive_held && !negative_held {
        FX_ONE
    } else if !positive_held && negative_held {
        -FX_ONE
    } else {
        0
    }
}

/// Where the player moves in one step: the linear input, rotated into
/// the player's frame, scaled by speed and timestep, added saturating.
pub open spec fn spec_player_position(p: V3, r: Q4, lin: V3, dt: int) -> V3 {
    sv_clamp(
        sv_add(
            p,
            sv_fx_scale(
                sv_clamp(sq_rotate(r, lin)),
                spec_fx_mul(CAMERA_MOVE_SPEED as int, dt),
            ),
        ),
    )
}

/// How the player turns in one step: first-order yaw, pitch and roll
/// increments applied in that order, each saturating.
pub open spec fn spec_player_rotation(r: Q4, ang: V3, dt: int) -> Q4 {
    let half = dt / 2;
    let dy = Q4 { x: 0, y: spec_clamp_rot(spec_fx_mul(ang.x, half)), z: 0, w: FX_ONE as int };
    let dx = Q4 { x: spec_clamp_rot(spec_fx_mul(ang.y, half)), y: 0, z: 0, w: FX_ONE as int };
    let dz = Q4 { x: 0, y: 0, z: spec_clamp_rot(spec_fx_mul(-ang.z, half)), w: FX_ONE as int };
    sq_clamp(sq_mul(sq_clamp(sq_mul(sq_clamp(sq_mul(r, dy)), dx)), dz))
}

/// The camera-controlling object: its transform and the axis input it
/// integrates each frame.
pub struct Player {
    pub id: Option<Handle>,
    pub transform: Transform,
    pub linear_input: Vec3Fx,
    pub angular_input: Vec3Fx,
}

impl Player {
    /// Transform inside bounds, inputs inside the unit range.
    pub open spec fn wf(self) -> bool {
        &&& self.transform.wf()
        &&& sv_bounded(self.linear_input@, FX_ONE as int)
        &&& sv_bounded(self.angular_input@, FX_ONE as int)
    }

    pub fn new(transform: Transform) -> (p: Self)
        requires
            transform.wf(),
        ensures
            p.wf(),
            p.transform == transform,
            p.id is None,
            p.linear_input@ == crate::math::sv_zero(),
            p.angular_input@ == crate::math::sv_zero(),
    {
        Player {
            id: None,
            transform,
            linear_input: Vec3Fx::zero(),
            angular_input: Vec3Fx::zero(),
        }
    }

    pub fn set_id(&mut self, id: Handle)
        ensures
            *final(self) == (Player { id: Some(id), ..*old(self) }),
    {
        self.id = Some(id);
    }

    /// Record this frame's axis input; it takes effect at the next
    /// update.
    pub fn update_player_input(&mut self, linear_input: Vec3Fx, angular_input: Vec3Fx)
        requires
            sv_bounded(linear_input@, FX_ONE as int),
            sv_bounded(angular_input@, FX_ONE as int),
        ensures
            *final(self) == (Player { linear_input, angular_input, ..*old(self) }),
            old(self).wf() ==> final(self).wf(),
    {
        self.linear_input = linear_input;
        self.angular_input = angular_input;
    }

    /// Integrate the recorded input over `delta_time` into the player's
    /// transform.
    pub fn update(&mut self, delta_time: i64)
        requires
            old(self).wf(),
            0 <= delta_time <= MAX_DELTA_TIME,
        ensures
            final(self).wf(),
            final(self).transform.position@ == spec_player_position(
                old(self).transform.position@,
                old(self).transform.rotation@,
                old(self).linear_input@,
                delta_time as int,
            ),
            final(self).transform.rotation@ == spec_player_rotation(
                old(self).transform.rotation@,
                old(self).angular_input@,
                delta_time as int,
            ),
            final(self).transform.scale == old(self).transform.scale,
            final(self).id == old(self).id,
            final(self).linear_input == old(self).linear_input,
            final(self).angular_input == old(self).angular_input,
    {
        let half_dt = delta_time / 2;
        let cm: Ghost<int> = Ghost(COORD_MAX as int);
        let speed_dt = crate::fixed::fx_mul_b(
            CAMERA_MOVE_SPEED,
            delta_time,
            Ghost(CAMERA_MOVE_SPEED as int),
            Ghost(MAX_DELTA_TIME as int),
        );
        let dir = self.transform.rotation.rotate_clamped(self.linear_input);
        let delta = dir.fx_scale(speed_dt);
        self.transform.position = self.transform.position.add_clamped(delta);

        let dy = QuatFx {
            x: 0,
            y: crate::fixed::sat_add_rot(
                crate::fixed::fx_mul_b(self.angular_input.x, half_dt, cm, cm),
                0,
            ),
            z: 0,
            w: FX_ONE,
        };
        let dx = QuatFx {
            x: crate::fixed::sat_add_rot(
                crate::fixed::fx_mul_b(self.angular_input.y, half_dt, cm, cm),
                0,
            ),
            y: 0,
            z: 0,
            w: FX_ONE,
        };
        let dz = QuatFx {
            x: 0,
            y: 0,
            z: crate::fixed::sat_add_rot(
                crate::fixed::fx_mul_b(-self.angular_input.z, half_dt, cm, cm),
                0,
            ),
            w: FX_ONE,
        };
        let r1 = self.transform.rotation.mul_clamped(dy);
        let r2 = r1.mul_clamped(dx);
        let r3 = r2.mul_clamped(dz);
        self.transform.rotation = r3;
    }

    /// The player's transform, as the camera pose.
    pub fn get_camera_transform(&self) -> (r: Option<Transform>)
        ensures
            r == Some(self.transform),
    {
        Some(self.transform)
    }
}

} // verus!
