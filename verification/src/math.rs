//! Numbers, vectors and matrices as the passes carry them.

use vstd::prelude::*;

verus! {

/// A single-precision number, held as its IEEE 754 bit pattern.
///
/// The passes only move such numbers from the scene to the GPU; they never
/// calculate with them, so the bit pattern is all they need.
pub type Scalar = u32;

/// The bit pattern of positive zero.
pub const ZERO: Scalar = 0x0000_0000;

/// The bit pattern of one.
pub const ONE: Scalar = 0x3f80_0000;

/// Three scalars: a position or a direction.
#[derive(Clone, Copy, Debug, PartialEq, Eq)]
pub struct Vec3 {
    pub x: Scalar,
    pub y: Scalar,
    pub z: Scalar,
}

/// Four scalars: a color (red, green, blue, alpha) or a padded [`Vec3`].
#[derive(Clone, Copy, Debug, PartialEq, Eq)]
pub struct Vec4 {
    pub x: Scalar,
    pub y: Scalar,
    pub z: Scalar,
    pub w: Scalar,
}

/// A 4x4 matrix given by its four columns.
#[derive(Clone, Copy, Debug, PartialEq, Eq)]
pub struct Mat4 {
    pub x: Vec4,
    pub y: Vec4,
    pub z: Vec4,
    pub w: Vec4,
}

impl Vec4 {
    /// The vector whose four components are positive zero.
    pub open spec fn spec_zero() -> Vec4 {
        Vec4 { x: ZERO, y: ZERO, z: ZERO, w: ZERO }
    }

    /// The vector whose four components are positive zero.
    pub fn zero() -> (v: Vec4)
        ensures
            v == Vec4::spec_zero(),
    {
        Vec4 { x: ZERO, y: ZERO, z: ZERO, w: ZERO }
    }
}

/// `v` widened to four components, the fourth being zero.
pub open spec fn spec_pad(v: Vec3) -> Vec4 {
    Vec4 { x: v.x, y: v.y, z: v.z, w: ZERO }
}

/// Widens `v` to the 16-byte slot that a uniform block gives a vector: the
/// three components stay in place and the fourth is zero.
pub fn pad(v: Vec3) -> (r: Vec4)
    ensures
        r == spec_pad(v),
{
    Vec4 { x: v.x, y: v.y, z: v.z, w: ZERO }
}

} // verus!
