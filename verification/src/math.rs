//! Fixed-point scalars and 2D vectors.
//!
//! Every simulation quantity is an `i64` holding thousandths of a world
//! unit (position, velocity) or of a dimensionless ratio (damping factor,
//! slope tangent, unit-vector component).  Integer arithmetic with a fixed
//! evaluation order makes every tick bit-exact across peers, which is the
//! property the whole rollback scheme rests on.
//!
//! The world is bounded: positions saturate at [`COORD_LIMIT`] and
//! velocities at [`VEL_LIMIT`].  Saturation is itself deterministic and
//! keeps every arithmetic step free of overflow.

use vstd::prelude::*;

verus! {

/// Fixed-point scale: one world unit is `SCALE` fixed-point steps.
pub const SCALE: i64 = 1000;

/// Largest representable coordinate magnitude (one billion world units).
pub const COORD_LIMIT: i64 = 1_000_000_000_000;

/// Largest representable speed magnitude (one million units per second).
pub const VEL_LIMIT: i64 = 1_000_000_000;

/// Upper bound on every per-character tunable (acceleration, jump power,
/// damping numerator, slope tangent) in fixed-point steps.
pub const TUNABLE_LIMIT: i64 = 1_000_000;

/// Upper bound on collider half-extents in fixed-point steps.
pub const EXTENT_LIMIT: i64 = 1_000_000;

/// Largest contact penetration depth a manifold may report.
pub const PEN_LIMIT: i64 = 10_000_000;

/// Largest accepted tick rate (ticks per second).
pub const MAX_TICK_RATE: u64 = 1000;

/// A 2D fixed-point vector.
#[derive(Clone, Copy, PartialEq, Eq, Structural, Debug)]
pub struct FxVec2 {
    pub x: i64,
    pub y: i64,
}

/// The zero vector.
pub fn fx_zero() -> (r: FxVec2)
    ensures
        r == (FxVec2 { x: 0, y: 0 }),
{
    FxVec2 { x: 0, y: 0 }
}

/// `v` limited to `[lo, hi]`.
pub open spec fn spec_clamp(v: int, lo: int, hi: int) -> int {
    if v < lo {
        lo
    } else if v > hi {
        hi
    } else {
        v
    }
}

/// Clamp `v` into `[lo, hi]`.
pub fn clamp_i64(v: i64, lo: i64, hi: i64) -> (r: i64)
    requires
        lo <= hi,
    ensures
        r == spec_clamp(v as int, lo as int, hi as int),
{
    if v < lo {
        lo
    } else if v > hi {
        hi
    } else {
        v
    }
}

/// A coordinate saturated into the representable world.
pub open spec fn spec_clamp_coord(v: int) -> int {
    spec_clamp(v, -COORD_LIMIT as int, COORD_LIMIT as int)
}

/// Saturate a coordinate into the representable world.
pub fn clamp_coord(v: i64) -> (r: i64)
    ensures
        r == spec_clamp_coord(v as int),
{
    clamp_i64(v, -COORD_LIMIT, COORD_LIMIT)
}

/// A speed saturated into the representable range.
pub open spec fn spec_clamp_vel(v: int) -> int {
    spec_clamp(v, -VEL_LIMIT as int, VEL_LIMIT as int)
}

/// Saturate a speed into the representable range.
pub fn clamp_vel(v: i64) -> (r: i64)
    ensures
        r == spec_clamp_vel(v as int),
{
    clamp_i64(v, -VEL_LIMIT, VEL_LIMIT)
}

/// Division rounded toward zero (the fixed-point rounding rule), for a
/// positive divisor.  On nonnegative operands this agrees with Euclidean
/// division; on a negative dividend it is the negated quotient of the
/// magnitudes.
pub open spec fn spec_div_trunc(v: int, k: int) -> int
    recommends
        k > 0,
{
    if v >= 0 {
        v / k
    } else {
        -((-v) / k)
    }
}

/// Divide rounding toward zero.  The divisor must be positive.
pub fn div_trunc(v: i64, k: i64) -> (r: i64)
    requires
        k > 0,
        v > i64::MIN,
    ensures
        r == spec_div_trunc(v as int, k as int),
{
    if v >= 0 {
        v / k
    } else {
        let m: i64 = -v;
        -(m / k)
    }
}

/// Rounding toward zero never enlarges the magnitude of a scaled value:
/// dividing by `k >= 1` gives a quotient no larger in magnitude than the
/// dividend, and multiplying by `n` with `0 <= n <= k` before dividing by
/// `k` keeps the result within the original magnitude.
pub proof fn lemma_div_trunc_shrinks(v: int, k: int)
    requires
        k >= 1,
    ensures
        v >= 0 ==> 0 <= spec_div_trunc(v, k) <= v,
        v < 0 ==> v <= spec_div_trunc(v, k) <= 0,
{
    if v >= 0 {
        vstd::arithmetic::div_mod::lemma_div_nonincreasing(v, k);
        vstd::arithmetic::div_mod::lemma_div_pos_is_pos(v, k);
    } else {
        vstd::arithmetic::div_mod::lemma_div_nonincreasing(-v, k);
        vstd::arithmetic::div_mod::lemma_div_pos_is_pos(-v, k);
    }
}

/// A product of two values is bounded by the product of their bounds.
pub proof fn lemma_mul_bound(a: int, b: int, am: int, bm: int) by (nonlinear_arith)
    requires
        -am <= a <= am,
        -bm <= b <= bm,
        0 <= am,
        0 <= bm,
    ensures
        -(am * bm) <= a * b <= am * bm,
{
}

/// The dot product of two fixed-point vectors, without rescaling.
pub open spec fn spec_dot(a: FxVec2, b: FxVec2) -> int {
    a.x * b.x + a.y * b.y
}

/// Dot product of a bounded velocity with a bounded unit-scale normal.
pub fn dot_vel_normal(v: FxVec2, n: FxVec2) -> (r: i64)
    requires
        -VEL_LIMIT <= v.x <= VEL_LIMIT,
        -VEL_LIMIT <= v.y <= VEL_LIMIT,
        -SCALE <= n.x <= SCALE,
        -SCALE <= n.y <= SCALE,
    ensures
        r == spec_dot(v, n),
        -2_000_000_000_000 <= r <= 2_000_000_000_000,
{
    proof {
        lemma_mul_bound(v.x as int, n.x as int, VEL_LIMIT as int, SCALE as int);
        lemma_mul_bound(v.y as int, n.y as int, VEL_LIMIT as int, SCALE as int);
    }
    v.x * n.x + v.y * n.y
}

/// The magnitude of `v` (absolute value).
pub open spec fn spec_abs(v: int) -> int {
    if v >= 0 {
        v
    } else {
        -v
    }
}

/// Absolute value.
pub fn abs_i64(v: i64) -> (r: i64)
    requires
        v > i64::MIN,
    ensures
        r == spec_abs(v as int),
{
    if v >= 0 {
        v
    } else {
        -v
    }
}

} // verus!
