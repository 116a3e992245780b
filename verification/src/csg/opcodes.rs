//! Opcodes of the flattened CSG nodes, as the GPU interprets them.
//!
//! Primitives use `0..32`, unary operators `32..64`, combinators `64..`.
use vstd::prelude::*;

verus! {

pub const EMPTY: u32 = 0;
pub const SPHERE: u32 = 1;
pub const CUBE: u32 = 2;
pub const TORUS: u32 = 3;
pub const CUBE_FRAME: u32 = 4;
pub const CONE: u32 = 5;
pub const TRIANGLE: u32 = 6;
pub const REGULAR_HEXAGON: u32 = 7;
pub const CAPSULE: u32 = 8;
pub const CYLINDER: u32 = 9;
pub const ELLIPSE: u32 = 10;
pub const OCTAHEDRON: u32 = 11;
pub const PYRAMID: u32 = 12;

pub const ROUND: u32 = 32;
pub const EXTRUDE: u32 = 33;
pub const REVOLVE: u32 = 34;
pub const PLANAR_SYMMETRY: u32 = 35;
pub const AXIAL_SYMMETRY: u32 = 36;
pub const ELONGATE: u32 = 37;
pub const ONION: u32 = 38;
pub const TWIST: u32 = 39;
pub const BEND: u32 = 40;
pub const TRANSFORM: u32 = 41;

pub const UNION: u32 = 64;
pub const INTERSECT: u32 = 65;
pub const DIFFERENCE: u32 = 66;
pub const SMOOTH_UNION: u32 = 67;
pub const SMOOTH_INTERSECT: u32 = 68;
pub const SMOOTH_DIFFERENCE: u32 = 69;

/// Law: every node kind has its own opcode, primitives below 32, unary
/// operators from 32 to 63 and combinators from 64, so the GPU tells the
/// kinds apart and knows from the opcode alone how many children to read.
pub proof fn lemma_opcodes_distinct_by_kind()
    ensures
        EMPTY < SPHERE < CUBE < TORUS < CUBE_FRAME < CONE < TRIANGLE < REGULAR_HEXAGON < CAPSULE
            < CYLINDER < ELLIPSE < OCTAHEDRON < PYRAMID < 32,
        32 <= ROUND < EXTRUDE < REVOLVE < PLANAR_SYMMETRY < AXIAL_SYMMETRY < ELONGATE < ONION
            < TWIST < BEND < TRANSFORM < 64,
        64 <= UNION < INTERSECT < DIFFERENCE < SMOOTH_UNION < SMOOTH_INTERSECT < SMOOTH_DIFFERENCE,
{
}

} // verus!
