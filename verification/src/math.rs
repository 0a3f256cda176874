//! Fixed-point vectors and quaternions.
//!
//! The executable types hold `i64` components; their views are records of
//! mathematical integers, and every operation is specified against an
//! exact integer mirror. Rotation composition is a first-order (small
//! angle) quaternion product: no trigonometry, so every result is an exact
//! function of the inputs.

use vstd::prelude::*;
use crate::fixed::{
    fx_mul_b, sat_add, sat_add_rot, spec_clamp, spec_clamp_rot, spec_fx_mul, COORD_MAX, FX_ONE,
    ROT_MAX,
};

verus! {

/// Mathematical view of a three-component vector.
pub ghost struct V3 {
    pub x: int,
    pub y: int,
    pub z: int,
}

/// Mathematical view of a quaternion.
pub ghost struct Q4 {
    pub x: int,
    pub y: int,
    pub z: int,
    pub w: int,
}

pub open spec fn sv_zero() -> V3 {
    V3 { x: 0, y: 0, z: 0 }
}

pub open spec fn sv_one() -> V3 {
    V3 { x: FX_ONE as int, y: FX_ONE as int, z: FX_ONE as int }
}

pub open spec fn sq_identity() -> Q4 {
    Q4 { x: 0, y: 0, z: 0, w: FX_ONE as int }
}

pub open spec fn sv_bounded(v: V3, bound: int) -> bool {
    &&& -bound <= v.x <= bound
    &&& -bound <= v.y <= bound
    &&& -bound <= v.z <= bound
}

pub open spec fn sq_bounded(q: Q4, bound: int) -> bool {
    &&& -bound <= q.x <= bound
    &&& -bound <= q.y <= bound
    &&& -bound <= q.z <= bound
    &&& -bound <= q.w <= bound
}

pub open spec fn sv_add(a: V3, b: V3) -> V3 {
    V3 { x: a.x + b.x, y: a.y + b.y, z: a.z + b.z }
}

pub open spec fn sv_clamp(v: V3) -> V3 {
    V3 { x: spec_clamp(v.x), y: spec_clamp(v.y), z: spec_clamp(v.z) }
}

pub open spec fn sq_clamp(q: Q4) -> Q4 {
    Q4 {
        x: spec_clamp_rot(q.x),
        y: spec_clamp_rot(q.y),
        z: spec_clamp_rot(q.z),
        w: spec_clamp_rot(q.w),
    }
}

/// Componentwise fixed-point scaling by one scalar.
pub open spec fn sv_fx_scale(v: V3, s: int) -> V3 {
    V3 { x: spec_fx_mul(v.x, s), y: spec_fx_mul(v.y, s), z: spec_fx_mul(v.z, s) }
}

/// Componentwise fixed-point product of two vectors.
pub open spec fn sv_cw_mul(a: V3, b: V3) -> V3 {
    V3 {
        x: spec_fx_mul(a.x, b.x),
        y: spec_fx_mul(a.y, b.y),
        z: spec_fx_mul(a.z, b.z),
    }
}

pub open spec fn sv_cross(a: V3, b: V3) -> V3 {
    V3 {
        x: spec_fx_mul(a.y, b.z) - spec_fx_mul(a.z, b.y),
        y: spec_fx_mul(a.z, b.x) - spec_fx_mul(a.x, b.z),
        z: spec_fx_mul(a.x, b.y) - spec_fx_mul(a.y, b.x),
    }
}

/// Hamilton product of two quaternions.
pub open spec fn sq_mul(a: Q4, b: Q4) -> Q4 {
    Q4 {
        x: spec_fx_mul(a.w, b.x) + spec_fx_mul(a.x, b.w) + spec_fx_mul(a.y, b.z) - spec_fx_mul(
            a.z,
            b.y,
        ),
        y: spec_fx_mul(a.w, b.y) - spec_fx_mul(a.x, b.z) + spec_fx_mul(a.y, b.w) + spec_fx_mul(
            a.z,
            b.x,
        ),
        z: spec_fx_mul(a.w, b.z) + spec_fx_mul(a.x, b.y) - spec_fx_mul(a.y, b.x) + spec_fx_mul(
            a.z,
            b.w,
        ),
        w: spec_fx_mul(a.w, b.w) - spec_fx_mul(a.x, b.x) - spec_fx_mul(a.y, b.y) - spec_fx_mul(
            a.z,
            b.z,
        ),
    }
}

/// Rotation of a vector by a quaternion: `v + w*t + qv x t` with
/// `t = 2*(qv x v)`.
pub open spec fn sq_rotate(q: Q4, v: V3) -> V3 {
    let qv = V3 { x: q.x, y: q.y, z: q.z };
    let c = sv_cross(qv, v);
    let t = V3 { x: 2 * c.x, y: 2 * c.y, z: 2 * c.z };
    sv_add(sv_add(v, sv_fx_scale(t, q.w)), sv_cross(qv, t))
}

/// A three-component fixed-point vector.
#[derive(Clone, Copy, Debug, PartialEq, Eq, Structural)]
pub struct Vec3Fx {
    pub x: i64,
    pub y: i64,
    pub z: i64,
}

impl View for Vec3Fx {
    type V = V3;

    open spec fn view(&self) -> V3 {
        V3 { x: self.x as int, y: self.y as int, z: self.z as int }
    }
}

/// A fixed-point quaternion.
#[derive(Clone, Copy, Debug, PartialEq, Eq, Structural)]
pub struct QuatFx {
    pub x: i64,
    pub y: i64,
    pub z: i64,
    pub w: i64,
}

impl View for QuatFx {
    type V = Q4;

    open spec fn view(&self) -> Q4 {
        Q4 { x: self.x as int, y: self.y as int, z: self.z as int, w: self.w as int }
    }
}

impl Vec3Fx {
    pub fn new(x: i64, y: i64, z: i64) -> (r: Vec3Fx)
        ensures
            r@ == (V3 { x: x as int, y: y as int, z: z as int }),
    {
        Vec3Fx { x, y, z }
    }

    pub fn zero() -> (r: Vec3Fx)
        ensures
            r@ == sv_zero(),
    {
        Vec3Fx { x: 0, y: 0, z: 0 }
    }

    pub fn one() -> (r: Vec3Fx)
        ensures
            r@ == sv_one(),
    {
        Vec3Fx { x: FX_ONE, y: FX_ONE, z: FX_ONE }
    }

    /// Saturating componentwise addition.
    pub fn add_clamped(self, other: Vec3Fx) -> (r: Vec3Fx)
        requires
            sv_bounded(self@, 0x2000_0000_0000_0000),
            sv_bounded(other@, 0x2000_0000_0000_0000),
        ensures
            r@ == sv_clamp(sv_add(self@, other@)),
            sv_bounded(r@, COORD_MAX as int),
    {
        Vec3Fx {
            x: sat_add(self.x, other.x),
            y: sat_add(self.y, other.y),
            z: sat_add(self.z, other.z),
        }
    }

    /// Fixed-point scaling by a scalar.
    pub fn fx_scale(self, s: i64) -> (r: Vec3Fx)
        requires
            sv_bounded(self@, COORD_MAX as int),
            -COORD_MAX <= s <= COORD_MAX,
        ensures
            r@ == sv_fx_scale(self@, s as int),
            sv_bounded(r@, 0x1000_0000_0000),
    {
        let cm: Ghost<int> = Ghost(COORD_MAX as int);
        Vec3Fx {
            x: fx_mul_b(self.x, s, cm, cm),
            y: fx_mul_b(self.y, s, cm, cm),
            z: fx_mul_b(self.z, s, cm, cm),
        }
    }

    /// Saturating componentwise product.
    pub fn cw_mul_clamped(self, other: Vec3Fx) -> (r: Vec3Fx)
        requires
            sv_bounded(self@, COORD_MAX as int),
            sv_bounded(other@, COORD_MAX as int),
        ensures
            r@ == sv_clamp(sv_cw_mul(self@, other@)),
            sv_bounded(r@, COORD_MAX as int),
    {
        let cm: Ghost<int> = Ghost(COORD_MAX as int);
        Vec3Fx {
            x: sat_add(fx_mul_b(self.x, other.x, cm, cm), 0),
            y: sat_add(fx_mul_b(self.y, other.y, cm, cm), 0),
            z: sat_add(fx_mul_b(self.z, other.z, cm, cm), 0),
        }
    }
}

impl QuatFx {
    pub fn new(x: i64, y: i64, z: i64, w: i64) -> (r: QuatFx)
        ensures
            r@ == (Q4 { x: x as int, y: y as int, z: z as int, w: w as int }),
    {
        QuatFx { x, y, z, w }
    }

    pub fn identity() -> (r: QuatFx)
        ensures
            r@ == sq_identity(),
    {
        QuatFx { x: 0, y: 0, z: 0, w: FX_ONE }
    }

    /// Saturating Hamilton product.
    pub fn mul_clamped(self, other: QuatFx) -> (r: QuatFx)
        requires
            sq_bounded(self@, ROT_MAX as int),
            sq_bounded(other@, ROT_MAX as int),
        ensures
            r@ == sq_clamp(sq_mul(self@, other@)),
            sq_bounded(r@, ROT_MAX as int),
    {
        let rm: Ghost<int> = Ghost(ROT_MAX as int);
        let a = self;
        let b = other;
        let x = fx_mul_b(a.w, b.x, rm, rm) + fx_mul_b(a.x, b.w, rm, rm) + fx_mul_b(
            a.y,
            b.z,
            rm,
            rm,
        ) - fx_mul_b(a.z, b.y, rm, rm);
        let y = fx_mul_b(a.w, b.y, rm, rm) - fx_mul_b(a.x, b.z, rm, rm) + fx_mul_b(
            a.y,
            b.w,
            rm,
            rm,
        ) + fx_mul_b(a.z, b.x, rm, rm);
        let z = fx_mul_b(a.w, b.z, rm, rm) + fx_mul_b(a.x, b.y, rm, rm) - fx_mul_b(
            a.y,
            b.x,
            rm,
            rm,
        ) + fx_mul_b(a.z, b.w, rm, rm);
        let w = fx_mul_b(a.w, b.w, rm, rm) - fx_mul_b(a.x, b.x, rm, rm) - fx_mul_b(
            a.y,
            b.y,
            rm,
            rm,
        ) - fx_mul_b(a.z, b.z, rm, rm);
        QuatFx { x: sat_add_rot(x, 0), y: sat_add_rot(y, 0), z: sat_add_rot(z, 0), w: sat_add_rot(
            w,
            0,
        ) }
    }

    /// Saturating rotation of a vector.
    pub fn rotate_clamped(self, v: Vec3Fx) -> (r: Vec3Fx)
        requires
            sq_bounded(self@, ROT_MAX as int),
            sv_bounded(v@, COORD_MAX as int),
        ensures
            r@ == sv_clamp(sq_rotate(self@, v@)),
            sv_bounded(r@, COORD_MAX as int),
    {
        let rm: Ghost<int> = Ghost(ROT_MAX as int);
        let cm: Ghost<int> = Ghost(COORD_MAX as int);
        let tb: Ghost<int> = Ghost(0x2_0000_0000int);
        let q = self;
        let tx = 2 * (fx_mul_b(q.y, v.z, rm, cm) - fx_mul_b(q.z, v.y, rm, cm));
        let ty = 2 * (fx_mul_b(q.z, v.x, rm, cm) - fx_mul_b(q.x, v.z, rm, cm));
        let tz = 2 * (fx_mul_b(q.x, v.y, rm, cm) - fx_mul_b(q.y, v.x, rm, cm));
        let rx = v.x + fx_mul_b(tx, q.w, tb, rm) + (fx_mul_b(q.y, tz, rm, tb) - fx_mul_b(
            q.z,
            ty,
            rm,
            tb,
        ));
        let ry = v.y + fx_mul_b(ty, q.w, tb, rm) + (fx_mul_b(q.z, tx, rm, tb) - fx_mul_b(
            q.x,
            tz,
            rm,
            tb,
        ));
        let rz = v.z + fx_mul_b(tz, q.w, tb, rm) + (fx_mul_b(q.x, ty, rm, tb) - fx_mul_b(
            q.y,
            tx,
            rm,
            tb,
        ));
        Vec3Fx { x: sat_add(rx, 0), y: sat_add(ry, 0), z: sat_add(rz, 0) }
    }
}

/// Clamping a vector already inside the coordinate range changes nothing.
pub proof fn lemma_sv_clamp_id(v: V3)
    requires
        sv_bounded(v, COORD_MAX as int),
    ensures
        sv_clamp(v) == v,
{
}

/// Clamping a quaternion already inside the rotation range changes nothing.
pub proof fn lemma_sq_clamp_id(q: Q4)
    requires
        sq_bounded(q, ROT_MAX as int),
    ensures
        sq_clamp(q) == q,
{
}

/// Rotating by the identity quaternion returns the vector unchanged.
pub proof fn lemma_rotate_identity(v: V3)
    ensures
        sq_rotate(sq_identity(), v) == v,
{
    crate::fixed::lemma_fx_mul_zero(v.x);
    crate::fixed::lemma_fx_mul_zero(v.y);
    crate::fixed::lemma_fx_mul_zero(v.z);
    crate::fixed::lemma_fx_mul_zero(FX_ONE as int);
}

/// Rotating the zero vector gives the zero vector.
pub proof fn lemma_rotate_zero(q: Q4)
    ensures
        sq_rotate(q, sv_zero()) == sv_zero(),
{
    crate::fixed::lemma_fx_mul_zero(q.x);
    crate::fixed::lemma_fx_mul_zero(q.y);
    crate::fixed::lemma_fx_mul_zero(q.z);
    crate::fixed::lemma_fx_mul_zero(q.w);
}

/// The identity quaternion is a right identity of the Hamilton product.
pub proof fn lemma_sq_mul_identity_right(q: Q4)
    ensures
        sq_mul(q, sq_identity()) == q,
{
    crate::fixed::lemma_fx_mul_one(q.x);
    crate::fixed::lemma_fx_mul_one(q.y);
    crate::fixed::lemma_fx_mul_one(q.z);
    crate::fixed::lemma_fx_mul_one(q.w);
    crate::fixed::lemma_fx_mul_zero(q.x);
    crate::fixed::lemma_fx_mul_zero(q.y);
    crate::fixed::lemma_fx_mul_zero(q.z);
    crate::fixed::lemma_fx_mul_zero(q.w);
}

/// The identity quaternion is a left identity of the Hamilton product.
pub proof fn lemma_sq_mul_identity_left(q: Q4)
    ensures
        sq_mul(sq_identity(), q) == q,
{
    crate::fixed::lemma_fx_mul_one(q.x);
    crate::fixed::lemma_fx_mul_one(q.y);
    crate::fixed::lemma_fx_mul_one(q.z);
    crate::fixed::lemma_fx_mul_one(q.w);
    crate::fixed::lemma_fx_mul_zero(q.x);
    crate::fixed::lemma_fx_mul_zero(q.y);
    crate::fixed::lemma_fx_mul_zero(q.z);
    crate::fixed::lemma_fx_mul_zero(q.w);
}

} // verus!
