//! Shared value types and the fixed-point world-coordinate arithmetic.
//!
//! World positions, velocities and sizes are measured in fixed-point
//! sub-units: `FP_ONE` sub-units make one world unit.  All of the
//! platformer's geometry works on these plain integers, so every
//! computation on them can be stated and proved exactly.

use vstd::prelude::*;

verus! {

/// Number of fixed-point sub-units in one world unit.
pub const FP_ONE: i64 = 1024;

/// Edge length of one square map tile, in world units.
pub const MAP_TILE_SIZE: i64 = 32;

/// Edge length of one square map tile, in fixed-point sub-units.
pub const TILE_FP: i64 = MAP_TILE_SIZE * FP_ONE;

/// Magnitude bound on the world coordinates, velocities and sizes the
/// physics accepts in one tick; keeps every intermediate product inside
/// `i64`.
pub const COORD_LIMIT: i64 = 0x100_0000_0000;

/// Upper bound on one tick's delta-time, in fixed-point seconds; keeps
/// every `value * dt` product inside `i64`.
pub const DT_LIMIT: i64 = 0x10_0000;

/// A world coordinate small enough for the physics arithmetic.
pub open spec fn in_world(v: i64) -> bool {
    -COORD_LIMIT <= v <= COORD_LIMIT
}

/// A delta-time the physics accepts: non-negative and bounded.
pub open spec fn valid_dt(dt: i64) -> bool {
    0 <= dt <= DT_LIMIT
}

/// A continuous world position (top-left anchor for bodies), in
/// fixed-point sub-units.
#[derive(Clone, Copy, PartialEq, Eq, Structural, Debug)]
pub struct Position2d {
    pub x: i64,
    pub y: i64,
}

/// A velocity in fixed-point sub-units per second.
#[derive(Clone, Copy, PartialEq, Eq, Structural, Debug)]
pub struct Velocity2d {
    pub vx: i64,
    pub vy: i64,
}

/// An axis-aligned bounding-box size, in fixed-point sub-units.
#[derive(Clone, Copy, PartialEq, Eq, Structural, Debug)]
pub struct Size2d {
    pub w: i64,
    pub h: i64,
}

/// Flooring division: rounds toward negative infinity, never toward
/// zero, matching the mathematical `/` of specifications for a positive
/// divisor.
pub fn floor_div(a: i64, b: i64) -> (q: i64)
    requires
        1 <= b,
    ensures
        q == a as int / b as int,
        a >= 0 ==> 0 <= q <= a,
        a < 0 ==> a <= q <= 0,
{
    proof {
        vstd::arithmetic::div_mod::lemma_fundamental_div_mod(a as int, b as int);
        let qi = a as int / b as int;
        let r = a as int % b as int;
        if qi >= 0 {
            assert(b * qi >= qi) by (nonlinear_arith)
                requires b >= 1 && qi >= 0;
            assert(qi <= a);
        } else {
            assert(b * (qi + 1) <= qi + 1) by (nonlinear_arith)
                requires b >= 1 && qi + 1 <= 0;
            assert(b * qi + b == b * (qi + 1)) by (nonlinear_arith);
            assert(a < b * qi + b);
            assert(a <= qi);
        }
    }
    a.checked_div_euclid(b).unwrap()
}

/// Scales a fixed-point value by a fixed-point delta-time; the product
/// is rounded toward negative infinity.
pub fn scale_by_dt(v: i64, dt: i64) -> (r: i64)
    requires
        in_world(v),
        valid_dt(dt),
    ensures
        r == (v * dt) as int / (FP_ONE as int),
        v >= 0 ==> 0 <= r <= v * dt,
        v < 0 ==> v * dt <= r <= 0,
        -COORD_LIMIT * DT_LIMIT <= r <= COORD_LIMIT * DT_LIMIT,
{
    proof {
        assert(-COORD_LIMIT * DT_LIMIT <= v * dt <= COORD_LIMIT * DT_LIMIT) by (nonlinear_arith)
            requires -COORD_LIMIT <= v <= COORD_LIMIT && 0 <= dt <= DT_LIMIT;
        assert(v >= 0 ==> v * dt >= 0) by (nonlinear_arith)
            requires dt >= 0;
        assert(v < 0 ==> v * dt <= 0) by (nonlinear_arith)
            requires dt >= 0;
    }
    let p: i64 = v * dt;
    floor_div(p, FP_ONE)
}

/// Quantizes a fixed-point coordinate to the nearest whole world unit
/// (half units round down), the correction the collision resolver
/// applies after a blocked move.
pub fn snap_to_unit(v: i64) -> (r: i64)
    requires
        in_world(v),
    ensures
        r == snap_spec(v as int),
{
    let q = floor_div(v + FP_ONE / 2, FP_ONE);
    q * FP_ONE
}

/// The tile index that a fixed-point world coordinate falls in:
/// flooring division by the tile edge length.
pub open spec fn tile_index(v: int) -> int {
    v / (TILE_FP as int)
}

/// Specification twin of `scale_by_dt`.
pub open spec fn scale_spec(v: int, dt: int) -> int {
    (v * dt) / (FP_ONE as int)
}

/// Specification twin of `snap_to_unit`.
pub open spec fn snap_spec(v: int) -> int {
    ((v + FP_ONE as int / 2) / FP_ONE as int) * (FP_ONE as int)
}

} // verus!
