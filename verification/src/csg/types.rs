//! Plain value types used by the CSG nodes.
//!
//! Scalars are held as the bit pattern of an IEEE-754 single precision
//! number: the GPU reads them back as `f32`, and every operation of this
//! crate only moves them around.
use vstd::prelude::*;

verus! {

/// Bit pattern of an IEEE-754 single precision scalar.
pub type FloatBits = u32;

/// A 3 component vector, each component as its bit pattern.
#[derive(Debug, Clone, Copy, PartialEq, Eq)]
pub struct Vec3 {
    pub x: FloatBits,
    pub y: FloatBits,
    pub z: FloatBits,
}

/// A quaternion, each component as its bit pattern.
#[derive(Debug, Clone, Copy, PartialEq, Eq)]
pub struct Quat {
    pub x: FloatBits,
    pub y: FloatBits,
    pub z: FloatBits,
    pub w: FloatBits,
}

impl Vec3 {
    pub fn new(x: FloatBits, y: FloatBits, z: FloatBits) -> (v: Vec3)
        ensures
            v == (Vec3 { x, y, z }),
    {
        Vec3 { x, y, z }
    }
}

} // verus!
