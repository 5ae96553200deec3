//! Fixed-point coordinates and colors.
//!
//! World-space quantities are stored as integers, with [`WORLD_UNIT`]
//! coordinate units per world unit. Depth 1 (the first image plane) sits at
//! `z == WORLD_UNIT`; projecting a point to a deeper plane is an exact
//! componentwise integer dilation.

use vstd::prelude::*;

verus! {

/// Number of coordinate units in one world unit.
pub const WORLD_UNIT: i64 = 1000;

/// Largest magnitude a stored coordinate may have. Dilating a coordinate
/// within this bound by any `u32` depth factor stays within `i64`.
pub const COORD_BOUND: i64 = 0x8000_0000;

/// A position or scale vector in fixed-point coordinate units.
#[derive(Clone, Copy, PartialEq, Eq, Structural, Debug)]
pub struct Vec3i {
    pub x: i64,
    pub y: i64,
    pub z: i64,
}

/// All three components are within [`COORD_BOUND`].
pub open spec fn coord_bounded(v: Vec3i) -> bool {
    &&& -COORD_BOUND <= v.x <= COORD_BOUND
    &&& -COORD_BOUND <= v.y <= COORD_BOUND
    &&& -COORD_BOUND <= v.z <= COORD_BOUND
}

/// An RGBA color, one byte per channel.
#[derive(Clone, Copy, PartialEq, Eq, Structural, Debug, Hash)]
pub struct Rgba {
    pub r: u8,
    pub g: u8,
    pub b: u8,
    pub a: u8,
}

proof fn lemma_dilation_in_i64(c: int, f: int)
    requires
        -COORD_BOUND <= c <= COORD_BOUND,
        0 <= f <= u32::MAX,
    ensures
        i64::MIN <= c * f <= i64::MAX,
{
    assert(-COORD_BOUND * 0xffff_ffff <= c * f <= COORD_BOUND * 0xffff_ffff)
        by (nonlinear_arith)
        requires
            -COORD_BOUND <= c <= COORD_BOUND,
            0 <= f <= 0xffff_ffff,
    ;
}

/// Exact componentwise dilation of a vector by an integer depth factor: the
/// projective-scaling rule that places a base point's copy on a deeper plane.
pub fn scale_vec(v: &Vec3i, factor: u32) -> (r: Vec3i)
    requires
        coord_bounded(*v),
    ensures
        r.x == v.x * factor,
        r.y == v.y * factor,
        r.z == v.z * factor,
{
    proof {
        lemma_dilation_in_i64(v.x as int, factor as int);
        lemma_dilation_in_i64(v.y as int, factor as int);
        lemma_dilation_in_i64(v.z as int, factor as int);
    }
    Vec3i { x: v.x * (factor as i64), y: v.y * (factor as i64), z: v.z * (factor as i64) }
}

} // verus!
