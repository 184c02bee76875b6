//! Fixed-point screen geometry: positions, edge wrap-around, rounding to
//! whole screen units, and the collision tolerance window.
//!
//! One screen unit is `SCALE` subunits; every coordinate, cell size and
//! speed value in the crate is measured in subunits.

use vstd::prelude::*;

verus! {

/// Ten subunits make one screen unit.
pub const SCALE: u32 = 10;

/// A point on the screen, in subunits.
#[derive(Clone, Copy, PartialEq, Eq, Structural, Debug)]
pub struct Pos {
    pub x: i64,
    pub y: i64,
}

/// One coordinate after the edge check: a value beyond `limit` teleports to
/// the near edge at zero, and a value more than `size` below zero (the body
/// size is the re-entry tolerance) teleports to the far edge at `limit`.
/// The check is asymmetric by design: the exit test uses the raw bound,
/// the re-entry test allows the body to leave the screen first.
pub open spec fn wrap_coord(v: int, limit: int, size: int) -> int {
    if v > limit {
        0
    } else if v < -size {
        limit
    } else {
        v
    }
}

/// Applies the edge wrap to one coordinate.
pub fn wrap(v: i64, limit: u32, size: u32) -> (r: i64)
    ensures
        r == wrap_coord(v as int, limit as int, size as int),
{
    if v > limit as i64 {
        0
    } else if v < -(size as i64) {
        limit as i64
    } else {
        v
    }
}

/// A subunit value rounded to the nearest whole screen unit, halves away
/// from zero.
pub open spec fn round_unit(t: int) -> int {
    if t >= 0 {
        (t + 5) / 10
    } else {
        -((-t + 5) / 10)
    }
}

/// Rounds a subunit coordinate to the nearest whole screen unit.
pub fn round_to_unit(t: i64) -> (r: i64)
    requires
        -0x4000_0000_0000_0000 <= t <= 0x4000_0000_0000_0000,
    ensures
        r == round_unit(t as int),
{
    if t >= 0 {
        (((t as u64) + 5) / 10) as i64
    } else {
        let m: u64 = (-t) as u64;
        -(((m + 5) / 10) as i64)
    }
}

/// The tolerance window used by every proximity check: a scaled difference
/// counts as close when it lies between `-(size_lo * boost)` and
/// `size_hi * boost`. The lower bound comes from the cell width and the
/// upper bound from the cell height, on both axes alike.
pub open spec fn within_tol(scaled_diff: int, size_lo: int, size_hi: int, boost: int) -> bool {
    -(size_lo * boost) <= scaled_diff <= size_hi * boost
}

/// Wrap-around law: a coordinate past the far edge lands exactly at zero, a
/// coordinate more than a body size before the near edge lands exactly at
/// `limit`, anything in between is untouched, and the result always lies in
/// `[-size, limit]`.
pub proof fn lemma_wrap_opposite_edge(v: int, limit: int, size: int)
    requires
        limit >= 0,
        size >= 0,
    ensures
        v > limit ==> wrap_coord(v, limit, size) == 0,
        v < -size ==> wrap_coord(v, limit, size) == limit,
        -size <= v <= limit ==> wrap_coord(v, limit, size) == v,
        -size <= wrap_coord(v, limit, size) <= limit,
{
}

} // verus!
