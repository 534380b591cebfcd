//! Integer vector utilities for the trackball core.
//!
//! Cursor samples arrive as integer coordinates, so deltas and rotation axes
//! are exact. The host is responsible for the floating-point quaternion that
//! realises each rotation command; this module only produces the axis data.

use vstd::prelude::*;

verus! {

/// Largest magnitude a cursor coordinate may have. Keeping coordinates within
/// this bound guarantees that coordinate differences, their squares and the
/// squared distance between two cursor positions all fit in the machine
/// integer types used below.
pub const COORD_LIMIT: i64 = 1_000_000_000;

/// A coordinate the controller accepts: bounded so that arithmetic on a pair
/// of coordinates cannot overflow.
pub open spec fn coord_in_range(c: i64) -> bool {
    -COORD_LIMIT <= c && c <= COORD_LIMIT
}

/// A three-component integer vector. Cursor deltas are lifted into this type
/// (with a zero third component) before being turned into a rotation axis.
#[derive(Clone, Copy, PartialEq, Eq, Structural, Debug)]
pub struct Vec3 {
    pub x: i64,
    pub y: i64,
    pub z: i64,
}

/// True exactly when every component of `v` is zero, i.e. `v` cannot serve as
/// a rotation axis.
pub open spec fn is_zero_spec(v: Vec3) -> bool {
    v.x == 0 && v.y == 0 && v.z == 0
}

impl Vec3 {
    /// Reports whether the vector is degenerate as a rotation axis.
    pub fn is_zero(&self) -> (r: bool)
        ensures
            r == is_zero_spec(*self),
    {
        self.x == 0 && self.y == 0 && self.z == 0
    }
}

/// Componentwise difference `a - b`. Pure and total on every pair whose
/// componentwise differences fit the machine integer type.
pub fn create_directional_vector(a: Vec3, b: Vec3) -> (r: Vec3)
    requires
        i64::MIN <= a.x - b.x <= i64::MAX,
        i64::MIN <= a.y - b.y <= i64::MAX,
        i64::MIN <= a.z - b.z <= i64::MAX,
    ensures
        r.x == a.x - b.x,
        r.y == a.y - b.y,
        r.z == a.z - b.z,
{
    Vec3 { x: a.x - b.x, y: a.y - b.y, z: a.z - b.z }
}

/// Maps a cursor delta to a raw rotation axis: horizontal motion rotates
/// about the vertical axis and vertical motion about the horizontal axis, so
/// the axis is `(delta.y, -delta.x, delta.z)`.
pub fn rotation_axis(delta: Vec3) -> (r: Vec3)
    requires
        i64::MIN < delta.x,
    ensures
        r.x == delta.y,
        r.y == -delta.x,
        r.z == delta.z,
{
    Vec3 { x: delta.y, y: -delta.x, z: delta.z }
}

} // verus!
