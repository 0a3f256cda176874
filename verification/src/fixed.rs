//! 16.16 fixed-point scalars.
//!
//! Positions, velocities, scales and quaternion components are `i64`
//! values carrying 16 fractional bits, so `FX_ONE` stands for 1.0.
//! Coordinates saturate at `COORD_MAX` (the edge of the simulated world)
//! and quaternion components at `ROT_MAX`, which keeps every product used
//! by the vector routines inside `i64`.

use vstd::prelude::*;

verus! {

/// The fixed-point representation of 1.0.
pub const FX_ONE: i64 = 65536;

/// Largest magnitude a coordinate (position, velocity, scale) may reach.
pub const COORD_MAX: i64 = 0x4000_0000;

/// Largest magnitude a quaternion component may reach.
pub const ROT_MAX: i64 = 131072;

/// Fixed-point product, rounded toward zero.
pub open spec fn spec_fx_mul(a: int, b: int) -> int {
    if a * b >= 0 {
        (a * b) / (FX_ONE as int)
    } else {
        -((-(a * b)) / (FX_ONE as int))
    }
}

/// Clamp to the coordinate range.
pub open spec fn spec_clamp(v: int) -> int {
    if v > COORD_MAX as int {
        COORD_MAX as int
    } else if v < -(COORD_MAX as int) {
        -(COORD_MAX as int)
    } else {
        v
    }
}

/// Clamp to the quaternion component range.
pub open spec fn spec_clamp_rot(v: int) -> int {
    if v > ROT_MAX as int {
        ROT_MAX as int
    } else if v < -(ROT_MAX as int) {
        -(ROT_MAX as int)
    } else {
        v
    }
}

/// Magnitude bound of a product from magnitude bounds of its factors.
pub proof fn lemma_abs_mul_le(a: int, b: int, bound_a: int, bound_b: int)
    requires
        -bound_a <= a <= bound_a,
        -bound_b <= b <= bound_b,
        0 <= bound_a,
        0 <= bound_b,
    ensures
        -(bound_a * bound_b) <= a * b <= bound_a * bound_b,
{
    assert(-(bound_a * bound_b) <= a * b <= bound_a * bound_b) by (nonlinear_arith)
        requires
            -bound_a <= a <= bound_a,
            -bound_b <= b <= bound_b,
            0 <= bound_a,
            0 <= bound_b,
    ;
}

/// Magnitude bound of a fixed-point product: a bound on `a * b` bounds the
/// scaled product by its sixteen-bit right shift.
pub proof fn lemma_fx_mul_le(a: int, b: int, bound: int)
    requires
        -bound <= a * b <= bound,
        0 <= bound,
    ensures
        -(bound / (FX_ONE as int)) <= spec_fx_mul(a, b) <= bound / (FX_ONE as int),
{
    let f = FX_ONE as int;
    let p = a * b;
    if p >= 0 {
        assert(0 <= p / f <= bound / f) by (nonlinear_arith)
            requires 0 <= p <= bound && f > 1;
    } else {
        assert(0 <= (-p) / f <= bound / f) by (nonlinear_arith)
            requires 0 < -p <= bound && f > 1;
    }
}

/// Fixed-point multiplication: `(a * b) >> 16`, rounded toward zero.
pub fn fx_mul(a: i64, b: i64) -> (r: i64)
    requires
        -0x4000_0000_0000_0000 <= a * b <= 0x4000_0000_0000_0000,
    ensures
        r == spec_fx_mul(a as int, b as int),
{
    let p: i64 = a * b;
    if p >= 0 {
        p / FX_ONE
    } else {
        -((-p) / FX_ONE)
    }
}

/// Fixed-point multiplication carrying magnitude bounds, so that callers
/// chaining products can discharge overflow checks without repeating the
/// bound lemmas.
pub fn fx_mul_b(a: i64, b: i64, Ghost(bound_a): Ghost<int>, Ghost(bound_b): Ghost<int>) -> (r: i64)
    requires
        -bound_a <= a <= bound_a,
        -bound_b <= b <= bound_b,
        0 <= bound_a,
        0 <= bound_b,
        bound_a * bound_b <= 0x4000_0000_0000_0000,
    ensures
        r == spec_fx_mul(a as int, b as int),
        -((bound_a * bound_b) / (FX_ONE as int)) <= r <= (bound_a * bound_b) / (FX_ONE as int),
{
    proof {
        lemma_abs_mul_le(a as int, b as int, bound_a, bound_b);
        lemma_fx_mul_le(a as int, b as int, bound_a * bound_b);
    }
    fx_mul(a, b)
}

/// Multiplying by the fixed-point one is the identity.
pub proof fn lemma_fx_mul_one(a: int)
    ensures
        spec_fx_mul(a, FX_ONE as int) == a,
        spec_fx_mul(FX_ONE as int, a) == a,
{
    let f = FX_ONE as int;
    if a >= 0 {
        assert(a * f >= 0) by (nonlinear_arith)
            requires a >= 0 && f > 0;
        assert((a * f) / f == a) by (nonlinear_arith)
            requires f > 0;
    } else {
        assert(a * f < 0) by (nonlinear_arith)
            requires a < 0 && f > 0;
        assert(-(a * f) == (-a) * f) by (nonlinear_arith);
        assert(((-a) * f) / f == -a) by (nonlinear_arith)
            requires f > 0;
    }
    assert(a * f == f * a) by (nonlinear_arith);
}

/// Multiplying by zero gives zero.
pub proof fn lemma_fx_mul_zero(a: int)
    ensures
        spec_fx_mul(a, 0) == 0,
        spec_fx_mul(0, a) == 0,
{
}

/// Saturating addition on coordinates.
pub fn sat_add(a: i64, b: i64) -> (r: i64)
    requires
        -0x2000_0000_0000_0000 <= a <= 0x2000_0000_0000_0000,
        -0x2000_0000_0000_0000 <= b <= 0x2000_0000_0000_0000,
    ensures
        r == spec_clamp(a + b),
        -COORD_MAX <= r <= COORD_MAX,
{
    let s: i64 = a + b;
    if s > COORD_MAX {
        COORD_MAX
    } else if s < -COORD_MAX {
        -COORD_MAX
    } else {
        s
    }
}

/// Saturating addition on quaternion components.
pub fn sat_add_rot(a: i64, b: i64) -> (r: i64)
    requires
        -0x2000_0000_0000_0000 <= a <= 0x2000_0000_0000_0000,
        -0x2000_0000_0000_0000 <= b <= 0x2000_0000_0000_0000,
    ensures
        r == spec_clamp_rot(a + b),
        -ROT_MAX <= r <= ROT_MAX,
{
    let s: i64 = a + b;
    if s > ROT_MAX {
        ROT_MAX
    } else if s < -ROT_MAX {
        -ROT_MAX
    } else {
        s
    }
}

} // verus!
