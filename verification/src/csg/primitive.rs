//! Primitive shapes: the leaves of a CSG tree. A primitive is always
//! written with a child count of zero.
use vstd::prelude::*;

use crate::csg::opcodes;
use crate::csg::repr::{node_repr, pack_quat, pack_vec3, CsgNodeRepr};
use crate::csg::types::{FloatBits, Quat, Vec3};
use crate::csg::CsgNode;

verus! {

/// A sphere. Slots: `offset` in 0..3, `radius` in 3.
#[derive(Debug, Clone, Copy, PartialEq, Eq)]
pub struct Sphere {
    pub offset: Vec3,
    pub radius: FloatBits,
}

impl CsgNode for Sphere {
    open spec fn spec_to_repr(&self, child_count: u32) -> CsgNodeRepr {
        node_repr(
            opcodes::SPHERE,
            0,
            [self.offset.x, self.offset.y, self.offset.z, self.radius, 0, 0, 0, 0, 0, 0, 0, 0],
        )
    }

    fn to_repr(&self, child_count: u32) -> (r: CsgNodeRepr) {
        let mut p: [u32; 12] = [0, 0, 0, 0, 0, 0, 0, 0, 0, 0, 0, 0];
        pack_vec3(&mut p, 0, self.offset);
        p[3] = self.radius;
        proof {
            broadcast use vstd::array::group_array_axioms;

            assert(p@ =~= self.spec_to_repr(child_count).data@);
            assert(p =~= self.spec_to_repr(child_count).data);
        }
        CsgNodeRepr::new(opcodes::SPHERE, 0, p)
    }
}

/// A box. Slots: `offset` in 0..3, `size` in 3..6, `rotation` in 6..10.
#[derive(Debug, Clone, Copy, PartialEq, Eq)]
pub struct Cube {
    pub offset: Vec3,
    pub size: Vec3,
    pub rotation: Quat,
}

impl CsgNode for Cube {
    open spec fn spec_to_repr(&self, child_count: u32) -> CsgNodeRepr {
        node_repr(
            opcodes::CUBE,
            0,
            [self.offset.x, self.offset.y, self.offset.z, self.size.x, self.size.y, self.size.z, self.rotation.x, self.rotation.y, self.rotation.z, self.rotation.w, 0, 0],
        )
    }

    fn to_repr(&self, child_count: u32) -> (r: CsgNodeRepr) {
        let mut p: [u32; 12] = [0, 0, 0, 0, 0, 0, 0, 0, 0, 0, 0, 0];
        pack_vec3(&mut p, 0, self.offset);
        pack_vec3(&mut p, 3, self.size);
        pack_quat(&mut p, 6, self.rotation);
        proof {
            broadcast use vstd::array::group_array_axioms;

            assert(p@ =~= self.spec_to_repr(child_count).data@);
            assert(p =~= self.spec_to_repr(child_count).data);
        }
        CsgNodeRepr::new(opcodes::CUBE, 0, p)
    }
}

/// A torus. Slots: `offset` in 0..3, `normal` in 3..6, `inner_radius` in 6, `outer_radius` in 7.
#[derive(Debug, Clone, Copy, PartialEq, Eq)]
pub struct Torus {
    pub offset: Vec3,
    pub normal: Vec3,
    pub inner_radius: FloatBits,
    pub outer_radius: FloatBits,
}

impl CsgNode for Torus {
    open spec fn spec_to_repr(&self, child_count: u32) -> CsgNodeRepr {
        node_repr(
            opcodes::TORUS,
            0,
            [self.offset.x, self.offset.y, self.offset.z, self.normal.x, self.normal.y, self.normal.z, self.inner_radius, self.outer_radius, 0, 0, 0, 0],
        )
    }

    fn to_repr(&self, child_count: u32) -> (r: CsgNodeRepr) {
        let mut p: [u32; 12] = [0, 0, 0, 0, 0, 0, 0, 0, 0, 0, 0, 0];
        pack_vec3(&mut p, 0, self.offset);
        pack_vec3(&mut p, 3, self.normal);
        p[6] = self.inner_radius;
        p[7] = self.outer_radius;
        proof {
            broadcast use vstd::array::group_array_axioms;

            assert(p@ =~= self.spec_to_repr(child_count).data@);
            assert(p =~= self.spec_to_repr(child_count).data);
        }
        CsgNodeRepr::new(opcodes::TORUS, 0, p)
    }
}

/// The edges of a box. Slots: `offset` in 0..3, `size` in 3..6, `rotation` in 6..10, `thickness` in 10.
#[derive(Debug, Clone, Copy, PartialEq, Eq)]
pub struct CubeFrame {
    pub offset: Vec3,
    pub size: Vec3,
    pub rotation: Quat,
    pub thickness: FloatBits,
}

impl CsgNode for CubeFrame {
    open spec fn spec_to_repr(&self, child_count: u32) -> CsgNodeRepr {
        node_repr(
            opcodes::CUBE_FRAME,
            0,
            [self.offset.x, self.offset.y, self.offset.z, self.size.x, self.size.y, self.size.z, self.rotation.x, self.rotation.y, self.rotation.z, self.rotation.w, self.thickness, 0],
        )
    }

    fn to_repr(&self, child_count: u32) -> (r: CsgNodeRepr) {
        let mut p: [u32; 12] = [0, 0, 0, 0, 0, 0, 0, 0, 0, 0, 0, 0];
        pack_vec3(&mut p, 0, self.offset);
        pack_vec3(&mut p, 3, self.size);
        pack_quat(&mut p, 6, self.rotation);
        p[10] = self.thickness;
        proof {
            broadcast use vstd::array::group_array_axioms;

            assert(p@ =~= self.spec_to_repr(child_count).data@);
            assert(p =~= self.spec_to_repr(child_count).data);
        }
        CsgNodeRepr::new(opcodes::CUBE_FRAME, 0, p)
    }
}

/// A cone. Slots: `offset` in 0..3, `pointing_towards` in 3..6, `height` in 6, `base_radius` in 7.
#[derive(Debug, Clone, Copy, PartialEq, Eq)]
pub struct Cone {
    pub offset: Vec3,
    pub pointing_towards: Vec3,
    pub height: FloatBits,
    pub base_radius: FloatBits,
}

impl CsgNode for Cone {
    open spec fn spec_to_repr(&self, child_count: u32) -> CsgNodeRepr {
        node_repr(
            opcodes::CONE,
            0,
            [self.offset.x, self.offset.y, self.offset.z, self.pointing_towards.x, self.pointing_towards.y, self.pointing_towards.z, self.height, self.base_radius, 0, 0, 0, 0],
        )
    }

    fn to_repr(&self, child_count: u32) -> (r: CsgNodeRepr) {
        let mut p: [u32; 12] = [0, 0, 0, 0, 0, 0, 0, 0, 0, 0, 0, 0];
        pack_vec3(&mut p, 0, self.offset);
        pack_vec3(&mut p, 3, self.pointing_towards);
        p[6] = self.height;
        p[7] = self.base_radius;
        proof {
            broadcast use vstd::array::group_array_axioms;

            assert(p@ =~= self.spec_to_repr(child_count).data@);
            assert(p =~= self.spec_to_repr(child_count).data);
        }
        CsgNodeRepr::new(opcodes::CONE, 0, p)
    }
}

/// A triangle. Slots: `a` in 0..3, `b` in 3..6, `c` in 6..9.
#[derive(Debug, Clone, Copy, PartialEq, Eq)]
pub struct Triangle {
    pub a: Vec3,
    pub b: Vec3,
    pub c: Vec3,
}

impl CsgNode for Triangle {
    open spec fn spec_to_repr(&self, child_count: u32) -> CsgNodeRepr {
        node_repr(
            opcodes::TRIANGLE,
            0,
            [self.a.x, self.a.y, self.a.z, self.b.x, self.b.y, self.b.z, self.c.x, self.c.y, self.c.z, 0, 0, 0],
        )
    }

    fn to_repr(&self, child_count: u32) -> (r: CsgNodeRepr) {
        let mut p: [u32; 12] = [0, 0, 0, 0, 0, 0, 0, 0, 0, 0, 0, 0];
        pack_vec3(&mut p, 0, self.a);
        pack_vec3(&mut p, 3, self.b);
        pack_vec3(&mut p, 6, self.c);
        proof {
            broadcast use vstd::array::group_array_axioms;

            assert(p@ =~= self.spec_to_repr(child_count).data@);
            assert(p =~= self.spec_to_repr(child_count).data);
        }
        CsgNodeRepr::new(opcodes::TRIANGLE, 0, p)
    }
}

/// A regular hexagon. Slots: `offset` in 0..3, `normal` in 3..6, `radius` in 6.
#[derive(Debug, Clone, Copy, PartialEq, Eq)]
pub struct RegularHexagon {
    pub offset: Vec3,
    pub normal: Vec3,
    pub radius: FloatBits,
}

impl CsgNode for RegularHexagon {
    open spec fn spec_to_repr(&self, child_count: u32) -> CsgNodeRepr {
        node_repr(
            opcodes::REGULAR_HEXAGON,
            0,
            [self.offset.x, self.offset.y, self.offset.z, self.normal.x, self.normal.y, self.normal.z, self.radius, 0, 0, 0, 0, 0],
        )
    }

    fn to_repr(&self, child_count: u32) -> (r: CsgNodeRepr) {
        let mut p: [u32; 12] = [0, 0, 0, 0, 0, 0, 0, 0, 0, 0, 0, 0];
        pack_vec3(&mut p, 0, self.offset);
        pack_vec3(&mut p, 3, self.normal);
        p[6] = self.radius;
        proof {
            broadcast use vstd::array::group_array_axioms;

            assert(p@ =~= self.spec_to_repr(child_count).data@);
            assert(p =~= self.spec_to_repr(child_count).data);
        }
        CsgNodeRepr::new(opcodes::REGULAR_HEXAGON, 0, p)
    }
}

/// A capsule between two points. Slots: `a` in 0..3, `b` in 3..6, `radius` in 6.
#[derive(Debug, Clone, Copy, PartialEq, Eq)]
pub struct Capsule {
    pub a: Vec3,
    pub b: Vec3,
    pub radius: FloatBits,
}

impl CsgNode for Capsule {
    open spec fn spec_to_repr(&self, child_count: u32) -> CsgNodeRepr {
        node_repr(
            opcodes::CAPSULE,
            0,
            [self.a.x, self.a.y, self.a.z, self.b.x, self.b.y, self.b.z, self.radius, 0, 0, 0, 0, 0],
        )
    }

    fn to_repr(&self, child_count: u32) -> (r: CsgNodeRepr) {
        let mut p: [u32; 12] = [0, 0, 0, 0, 0, 0, 0, 0, 0, 0, 0, 0];
        pack_vec3(&mut p, 0, self.a);
        pack_vec3(&mut p, 3, self.b);
        p[6] = self.radius;
        proof {
            broadcast use vstd::array::group_array_axioms;

            assert(p@ =~= self.spec_to_repr(child_count).data@);
            assert(p =~= self.spec_to_repr(child_count).data);
        }
        CsgNodeRepr::new(opcodes::CAPSULE, 0, p)
    }
}

/// A cylinder between two points. Slots: `a` in 0..3, `b` in 3..6, `radius` in 6.
#[derive(Debug, Clone, Copy, PartialEq, Eq)]
pub struct Cylinder {
    pub a: Vec3,
    pub b: Vec3,
    pub radius: FloatBits,
}

impl CsgNode for Cylinder {
    open spec fn spec_to_repr(&self, child_count: u32) -> CsgNodeRepr {
        node_repr(
            opcodes::CYLINDER,
            0,
            [self.a.x, self.a.y, self.a.z, self.b.x, self.b.y, self.b.z, self.radius, 0, 0, 0, 0, 0],
        )
    }

    fn to_repr(&self, child_count: u32) -> (r: CsgNodeRepr) {
        let mut p: [u32; 12] = [0, 0, 0, 0, 0, 0, 0, 0, 0, 0, 0, 0];
        pack_vec3(&mut p, 0, self.a);
        pack_vec3(&mut p, 3, self.b);
        p[6] = self.radius;
        proof {
            broadcast use vstd::array::group_array_axioms;

            assert(p@ =~= self.spec_to_repr(child_count).data@);
            assert(p =~= self.spec_to_repr(child_count).data);
        }
        CsgNodeRepr::new(opcodes::CYLINDER, 0, p)
    }
}

/// An ellipse. Slots: `a` in 0..3, `b` in 3..6, `radius` in 6.
#[derive(Debug, Clone, Copy, PartialEq, Eq)]
pub struct Ellipse {
    pub a: Vec3,
    pub b: Vec3,
    pub radius: FloatBits,
}

impl CsgNode for Ellipse {
    open spec fn spec_to_repr(&self, child_count: u32) -> CsgNodeRepr {
        node_repr(
            opcodes::ELLIPSE,
            0,
            [self.a.x, self.a.y, self.a.z, self.b.x, self.b.y, self.b.z, self.radius, 0, 0, 0, 0, 0],
        )
    }

    fn to_repr(&self, child_count: u32) -> (r: CsgNodeRepr) {
        let mut p: [u32; 12] = [0, 0, 0, 0, 0, 0, 0, 0, 0, 0, 0, 0];
        pack_vec3(&mut p, 0, self.a);
        pack_vec3(&mut p, 3, self.b);
        p[6] = self.radius;
        proof {
            broadcast use vstd::array::group_array_axioms;

            assert(p@ =~= self.spec_to_repr(child_count).data@);
            assert(p =~= self.spec_to_repr(child_count).data);
        }
        CsgNodeRepr::new(opcodes::ELLIPSE, 0, p)
    }
}

/// An octahedron. Slots: `offset` in 0..3, `size` in 3, `rotation` in 4..8.
#[derive(Debug, Clone, Copy, PartialEq, Eq)]
pub struct Octahedron {
    pub offset: Vec3,
    pub size: FloatBits,
    pub rotation: Quat,
}

impl CsgNode for Octahedron {
    open spec fn spec_to_repr(&self, child_count: u32) -> CsgNodeRepr {
        node_repr(
            opcodes::OCTAHEDRON,
            0,
            [self.offset.x, self.offset.y, self.offset.z, self.size, self.rotation.x, self.rotation.y, self.rotation.z, self.rotation.w, 0, 0, 0, 0],
        )
    }

    fn to_repr(&self, child_count: u32) -> (r: CsgNodeRepr) {
        let mut p: [u32; 12] = [0, 0, 0, 0, 0, 0, 0, 0, 0, 0, 0, 0];
        pack_vec3(&mut p, 0, self.offset);
        p[3] = self.size;
        pack_quat(&mut p, 4, self.rotation);
        proof {
            broadcast use vstd::array::group_array_axioms;

            assert(p@ =~= self.spec_to_repr(child_count).data@);
            assert(p =~= self.spec_to_repr(child_count).data);
        }
        CsgNodeRepr::new(opcodes::OCTAHEDRON, 0, p)
    }
}

/// A pyramid. Slots: `offset` in 0..3, `size` in 3, `rotation` in 4..8.
#[derive(Debug, Clone, Copy, PartialEq, Eq)]
pub struct Pyramid {
    pub offset: Vec3,
    pub size: FloatBits,
    pub rotation: Quat,
}

impl CsgNode for Pyramid {
    open spec fn spec_to_repr(&self, child_count: u32) -> CsgNodeRepr {
        node_repr(
            opcodes::PYRAMID,
            0,
            [self.offset.x, self.offset.y, self.offset.z, self.size, self.rotation.x, self.rotation.y, self.rotation.z, self.rotation.w, 0, 0, 0, 0],
        )
    }

    fn to_repr(&self, child_count: u32) -> (r: CsgNodeRepr) {
        let mut p: [u32; 12] = [0, 0, 0, 0, 0, 0, 0, 0, 0, 0, 0, 0];
        pack_vec3(&mut p, 0, self.offset);
        p[3] = self.size;
        pack_quat(&mut p, 4, self.rotation);
        proof {
            broadcast use vstd::array::group_array_axioms;

            assert(p@ =~= self.spec_to_repr(child_count).data@);
            assert(p =~= self.spec_to_repr(child_count).data);
        }
        CsgNodeRepr::new(opcodes::PYRAMID, 0, p)
    }
}

} // verus!
