//! Rigid transforms: position, rotation and scale in fixed point.

use vstd::prelude::*;
use crate::math::{
    sq_bounded, sq_clamp, sq_identity, sq_mul, sq_rotate, sv_add, sv_bounded, sv_clamp, sv_cw_mul,
    sv_one, sv_zero, Q4, QuatFx, V3, Vec3Fx,
};
use crate::fixed::{COORD_MAX, ROT_MAX};

verus! {

/// Mathematical view of a transform.
pub ghost struct TransformV {
    pub position: V3,
    pub rotation: Q4,
    pub scale: V3,
}

/// A position, a rotation and a componentwise scale, applied in the usual
/// scale-rotate-translate order.
#[derive(Clone, Copy, Debug, PartialEq, Eq, Structural)]
pub struct Transform {
    pub position: Vec3Fx,
    pub rotation: QuatFx,
    pub scale: Vec3Fx,
}

impl View for Transform {
    type V = TransformV;

    open spec fn view(&self) -> TransformV {
        TransformV { position: self.position@, rotation: self.rotation@, scale: self.scale@ }
    }
}

/// All components inside their saturation ranges.
pub open spec fn st_wf(t: TransformV) -> bool {
    &&& sv_bounded(t.position, COORD_MAX as int)
    &&& sq_bounded(t.rotation, ROT_MAX as int)
    &&& sv_bounded(t.scale, COORD_MAX as int)
}

/// The identity transform: zero offset, identity rotation, unit scale.
pub open spec fn st_identity() -> TransformV {
    TransformV { position: sv_zero(), rotation: sq_identity(), scale: sv_one() }
}

/// Composition `a` after `b`: `b`'s position is scaled by `a`, rotated into
/// `a`'s frame and offset by `a`'s position; rotations multiply, scales
/// multiply componentwise. Every stage saturates as its executable
/// counterpart does.
pub open spec fn st_compose(a: TransformV, b: TransformV) -> TransformV {
    TransformV {
        position: sv_clamp(
            sv_add(
                a.position,
                sv_clamp(sq_rotate(a.rotation, sv_clamp(sv_cw_mul(b.position, a.scale)))),
            ),
        ),
        rotation: sq_clamp(sq_mul(a.rotation, b.rotation)),
        scale: sv_clamp(sv_cw_mul(a.scale, b.scale)),
    }
}

impl Default for Transform {
    /// The identity transform.
    fn default() -> (t: Self)
        ensures
            t@ == st_identity(),
            t.wf(),
    {
        Transform {
            position: Vec3Fx::zero(),
            rotation: QuatFx::identity(),
            scale: Vec3Fx::one(),
        }
    }
}

impl Transform {
    pub open spec fn wf(self) -> bool {
        st_wf(self@)
    }

    /// A transform at the given position with identity rotation and unit
    /// scale.
    pub fn new_pos(position: Vec3Fx) -> (t: Self)
        ensures
            t@ == (TransformV { position: position@, rotation: sq_identity(), scale: sv_one() }),
    {
        Transform { position, rotation: QuatFx::identity(), scale: Vec3Fx::one() }
    }

    /// Compose `self` with a child transform expressed in `self`'s local
    /// frame.
    pub fn compose(self, other: Transform) -> (r: Transform)
        requires
            self.wf(),
            other.wf(),
        ensures
            r@ == st_compose(self@, other@),
            r.wf(),
    {
        let scaled = other.position.cw_mul_clamped(self.scale);
        let rotated = self.rotation.rotate_clamped(scaled);
        let position = self.position.add_clamped(rotated);
        let rotation = self.rotation.mul_clamped(other.rotation);
        let scale = self.scale.cw_mul_clamped(other.scale);
        Transform { position, rotation, scale }
    }
}

/// Composing with the identity transform on the right changes nothing:
/// a part with no local offset sits exactly on its parent.
pub proof fn lemma_compose_identity_right(t: TransformV)
    requires
        st_wf(t),
    ensures
        st_compose(t, st_identity()) == t,
{
    crate::fixed::lemma_fx_mul_zero(t.scale.x);
    crate::fixed::lemma_fx_mul_zero(t.scale.y);
    crate::fixed::lemma_fx_mul_zero(t.scale.z);
    crate::math::lemma_rotate_zero(t.rotation);
    crate::math::lemma_sv_clamp_id(t.position);
    crate::math::lemma_sq_mul_identity_right(t.rotation);
    crate::math::lemma_sq_clamp_id(t.rotation);
    crate::fixed::lemma_fx_mul_one(t.scale.x);
    crate::fixed::lemma_fx_mul_one(t.scale.y);
    crate::fixed::lemma_fx_mul_one(t.scale.z);
    crate::math::lemma_sv_clamp_id(t.scale);
    assert(sv_add(t.position, sv_zero()) == t.position);
}

/// Composing with the identity transform on the left changes nothing: a
/// root at the origin leaves its parts where their offsets put them.
pub proof fn lemma_compose_identity_left(t: TransformV)
    requires
        st_wf(t),
    ensures
        st_compose(st_identity(), t) == t,
{
    crate::fixed::lemma_fx_mul_one(t.position.x);
    crate::fixed::lemma_fx_mul_one(t.position.y);
    crate::fixed::lemma_fx_mul_one(t.position.z);
    crate::math::lemma_sv_clamp_id(t.position);
    crate::math::lemma_rotate_identity(t.position);
    crate::math::lemma_sq_mul_identity_left(t.rotation);
    crate::math::lemma_sq_clamp_id(t.rotation);
    crate::fixed::lemma_fx_mul_one(t.scale.x);
    crate::fixed::lemma_fx_mul_one(t.scale.y);
    crate::fixed::lemma_fx_mul_one(t.scale.z);
    crate::math::lemma_sv_clamp_id(t.scale);
    assert(sv_add(sv_zero(), t.position) == t.position);
}

} // verus!
