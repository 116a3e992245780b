//! The node layout of the GPU buffer.
use vstd::prelude::*;

use crate::csg::types::{Quat, Vec3};

verus! {

/// One node as it lives in the GPU buffer: fixed size, plain data,
/// laid out for std430.
///
/// `data` is read per opcode; each node type documents its slots.
#[derive(Debug, Clone, Copy, PartialEq, Eq)]
pub struct CsgNodeRepr {
    pub opcode: u32,
    pub child_count: u32,
    pub pad: [u32; 2],
    pub data: [u32; 12],
}

/// The node with the given opcode, child count and parameter slots.
pub open spec fn node_repr(opcode: u32, child_count: u32, data: [u32; 12]) -> CsgNodeRepr {
    CsgNodeRepr { opcode, child_count, pad: [0u32, 0u32], data }
}

impl CsgNodeRepr {
    pub fn new(opcode: u32, child_count: u32, data: [u32; 12]) -> (r: CsgNodeRepr)
        ensures
            r == node_repr(opcode, child_count, data),
    {
        CsgNodeRepr { opcode, child_count, pad: [0, 0], data }
    }
}

/// Writes a vector into three consecutive slots.
pub fn pack_vec3(out: &mut [u32; 12], at: usize, v: Vec3)
    requires
        at + 3 <= 12,
    ensures
        final(out)@ == old(out)@.update(at as int, v.x).update(at + 1, v.y).update(at + 2, v.z),
{
    out[at] = v.x;
    out[at + 1] = v.y;
    out[at + 2] = v.z;
}

/// Writes a quaternion into four consecutive slots, in `x, y, z, w` order.
pub fn pack_quat(out: &mut [u32; 12], at: usize, q: Quat)
    requires
        at + 4 <= 12,
    ensures
        final(out)@ == old(out)@.update(at as int, q.x).update(at + 1, q.y).update(at + 2, q.z).update(
            at + 3,
            q.w,
        ),
{
    out[at] = q.x;
    out[at + 1] = q.y;
    out[at + 2] = q.z;
    out[at + 3] = q.w;
}

} // verus!
