//! Operators of a CSG tree: unary modifiers and combinators. An operator
//! is written with the child count it is given.
use vstd::prelude::*;

use crate::csg::opcodes;
use crate::csg::repr::{node_repr, pack_quat, pack_vec3, CsgNodeRepr};
use crate::csg::types::{FloatBits, Quat, Vec3};
use crate::csg::CsgNode;

verus! {

/// Rounds the child by a radius. Slots: `radius` in 0.
#[derive(Debug, Clone, Copy, PartialEq, Eq)]
pub struct Round {
    pub radius: FloatBits,
}

impl CsgNode for Round {
    open spec fn spec_to_repr(&self, child_count: u32) -> CsgNodeRepr {
        node_repr(
            opcodes::ROUND,
            child_count,
            [self.radius, 0, 0, 0, 0, 0, 0, 0, 0, 0, 0, 0],
        )
    }

    fn to_repr(&self, child_count: u32) -> (r: CsgNodeRepr) {
        let mut p: [u32; 12] = [0, 0, 0, 0, 0, 0, 0, 0, 0, 0, 0, 0];
        p[0] = self.radius;
        proof {
            broadcast use vstd::array::group_array_axioms;

            assert(p@ =~= self.spec_to_repr(child_count).data@);
            assert(p =~= self.spec_to_repr(child_count).data);
        }
        CsgNodeRepr::new(opcodes::ROUND, child_count, p)
    }
}

/// Extrudes the child along a vector. Slots: `extrusion` in 0..3.
#[derive(Debug, Clone, Copy, PartialEq, Eq)]
pub struct Extrude {
    pub extrusion: Vec3,
}

impl CsgNode for Extrude {
    open spec fn spec_to_repr(&self, child_count: u32) -> CsgNodeRepr {
        node_repr(
            opcodes::EXTRUDE,
            child_count,
            [self.extrusion.x, self.extrusion.y, self.extrusion.z, 0, 0, 0, 0, 0, 0, 0, 0, 0],
        )
    }

    fn to_repr(&self, child_count: u32) -> (r: CsgNodeRepr) {
        let mut p: [u32; 12] = [0, 0, 0, 0, 0, 0, 0, 0, 0, 0, 0, 0];
        pack_vec3(&mut p, 0, self.extrusion);
        proof {
            broadcast use vstd::array::group_array_axioms;

            assert(p@ =~= self.spec_to_repr(child_count).data@);
            assert(p =~= self.spec_to_repr(child_count).data);
        }
        CsgNodeRepr::new(opcodes::EXTRUDE, child_count, p)
    }
}

/// Revolves the child around an axis. Slots: `axis_base` in 0..3, `axis_dir` in 4..7.
#[derive(Debug, Clone, Copy, PartialEq, Eq)]
pub struct Revolve {
    pub axis_base: Vec3,
    pub axis_dir: Vec3,
}

impl CsgNode for Revolve {
    open spec fn spec_to_repr(&self, child_count: u32) -> CsgNodeRepr {
        node_repr(
            opcodes::REVOLVE,
            child_count,
            [self.axis_base.x, self.axis_base.y, self.axis_base.z, 0, self.axis_dir.x, self.axis_dir.y, self.axis_dir.z, 0, 0, 0, 0, 0],
        )
    }

    fn to_repr(&self, child_count: u32) -> (r: CsgNodeRepr) {
        let mut p: [u32; 12] = [0, 0, 0, 0, 0, 0, 0, 0, 0, 0, 0, 0];
        pack_vec3(&mut p, 0, self.axis_base);
        pack_vec3(&mut p, 4, self.axis_dir);
        proof {
            broadcast use vstd::array::group_array_axioms;

            assert(p@ =~= self.spec_to_repr(child_count).data@);
            assert(p =~= self.spec_to_repr(child_count).data);
        }
        CsgNodeRepr::new(opcodes::REVOLVE, child_count, p)
    }
}

/// Mirrors the child across a plane. Slots: `plane_base` in 0..3, `plane_normal` in 4..7.
#[derive(Debug, Clone, Copy, PartialEq, Eq)]
pub struct PlanarSymmetry {
    pub plane_base: Vec3,
    pub plane_normal: Vec3,
}

impl CsgNode for PlanarSymmetry {
    open spec fn spec_to_repr(&self, child_count: u32) -> CsgNodeRepr {
        node_repr(
            opcodes::PLANAR_SYMMETRY,
            child_count,
            [self.plane_base.x, self.plane_base.y, self.plane_base.z, 0, self.plane_normal.x, self.plane_normal.y, self.plane_normal.z, 0, 0, 0, 0, 0],
        )
    }

    fn to_repr(&self, child_count: u32) -> (r: CsgNodeRepr) {
        let mut p: [u32; 12] = [0, 0, 0, 0, 0, 0, 0, 0, 0, 0, 0, 0];
        pack_vec3(&mut p, 0, self.plane_base);
        pack_vec3(&mut p, 4, self.plane_normal);
        proof {
            broadcast use vstd::array::group_array_axioms;

            assert(p@ =~= self.spec_to_repr(child_count).data@);
            assert(p =~= self.spec_to_repr(child_count).data);
        }
        CsgNodeRepr::new(opcodes::PLANAR_SYMMETRY, child_count, p)
    }
}

/// Repeats the child around an axis; the clone count is stored as raw bits. Slots: `axis_base` in 0..3, `axis_dir` in 4..7, `clone_count` in 8.
#[derive(Debug, Clone, Copy, PartialEq, Eq)]
pub struct AxialSymmetry {
    pub axis_base: Vec3,
    pub axis_dir: Vec3,
    pub clone_count: u32,
}

impl CsgNode for AxialSymmetry {
    open spec fn spec_to_repr(&self, child_count: u32) -> CsgNodeRepr {
        node_repr(
            opcodes::AXIAL_SYMMETRY,
            child_count,
            [self.axis_base.x, self.axis_base.y, self.axis_base.z, 0, self.axis_dir.x, self.axis_dir.y, self.axis_dir.z, 0, self.clone_count, 0, 0, 0],
        )
    }

    fn to_repr(&self, child_count: u32) -> (r: CsgNodeRepr) {
        let mut p: [u32; 12] = [0, 0, 0, 0, 0, 0, 0, 0, 0, 0, 0, 0];
        pack_vec3(&mut p, 0, self.axis_base);
        pack_vec3(&mut p, 4, self.axis_dir);
        p[8] = self.clone_count;
        proof {
            broadcast use vstd::array::group_array_axioms;

            assert(p@ =~= self.spec_to_repr(child_count).data@);
            assert(p =~= self.spec_to_repr(child_count).data);
        }
        CsgNodeRepr::new(opcodes::AXIAL_SYMMETRY, child_count, p)
    }
}

/// Stretches the child. Slots: `elongation` in 0..3.
#[derive(Debug, Clone, Copy, PartialEq, Eq)]
pub struct Elongate {
    pub elongation: Vec3,
}

impl CsgNode for Elongate {
    open spec fn spec_to_repr(&self, child_count: u32) -> CsgNodeRepr {
        node_repr(
            opcodes::ELONGATE,
            child_count,
            [self.elongation.x, self.elongation.y, self.elongation.z, 0, 0, 0, 0, 0, 0, 0, 0, 0],
        )
    }

    fn to_repr(&self, child_count: u32) -> (r: CsgNodeRepr) {
        let mut p: [u32; 12] = [0, 0, 0, 0, 0, 0, 0, 0, 0, 0, 0, 0];
        pack_vec3(&mut p, 0, self.elongation);
        proof {
            broadcast use vstd::array::group_array_axioms;

            assert(p@ =~= self.spec_to_repr(child_count).data@);
            assert(p =~= self.spec_to_repr(child_count).data);
        }
        CsgNodeRepr::new(opcodes::ELONGATE, child_count, p)
    }
}

/// Turns the child into a shell. Slots: `thickness` in 0.
#[derive(Debug, Clone, Copy, PartialEq, Eq)]
pub struct Onion {
    pub thickness: FloatBits,
}

impl CsgNode for Onion {
    open spec fn spec_to_repr(&self, child_count: u32) -> CsgNodeRepr {
        node_repr(
            opcodes::ONION,
            child_count,
            [self.thickness, 0, 0, 0, 0, 0, 0, 0, 0, 0, 0, 0],
        )
    }

    fn to_repr(&self, child_count: u32) -> (r: CsgNodeRepr) {
        let mut p: [u32; 12] = [0, 0, 0, 0, 0, 0, 0, 0, 0, 0, 0, 0];
        p[0] = self.thickness;
        proof {
            broadcast use vstd::array::group_array_axioms;

            assert(p@ =~= self.spec_to_repr(child_count).data@);
            assert(p =~= self.spec_to_repr(child_count).data);
        }
        CsgNodeRepr::new(opcodes::ONION, child_count, p)
    }
}

/// Twists the child around a direction. Slots: `direction` in 0..3, `amount` in 3.
#[derive(Debug, Clone, Copy, PartialEq, Eq)]
pub struct Twist {
    pub direction: Vec3,
    pub amount: FloatBits,
}

impl CsgNode for Twist {
    open spec fn spec_to_repr(&self, child_count: u32) -> CsgNodeRepr {
        node_repr(
            opcodes::TWIST,
            child_count,
            [self.direction.x, self.direction.y, self.direction.z, self.amount, 0, 0, 0, 0, 0, 0, 0, 0],
        )
    }

    fn to_repr(&self, child_count: u32) -> (r: CsgNodeRepr) {
        let mut p: [u32; 12] = [0, 0, 0, 0, 0, 0, 0, 0, 0, 0, 0, 0];
        pack_vec3(&mut p, 0, self.direction);
        p[3] = self.amount;
        proof {
            broadcast use vstd::array::group_array_axioms;

            assert(p@ =~= self.spec_to_repr(child_count).data@);
            assert(p =~= self.spec_to_repr(child_count).data);
        }
        CsgNodeRepr::new(opcodes::TWIST, child_count, p)
    }
}

/// Bends the child. Slots: `curvature_normal` in 0..3.
#[derive(Debug, Clone, Copy, PartialEq, Eq)]
pub struct Bend {
    pub curvature_normal: Vec3,
}

impl CsgNode for Bend {
    open spec fn spec_to_repr(&self, child_count: u32) -> CsgNodeRepr {
        node_repr(
            opcodes::BEND,
            child_count,
            [self.curvature_normal.x, self.curvature_normal.y, self.curvature_normal.z, 0, 0, 0, 0, 0, 0, 0, 0, 0],
        )
    }

    fn to_repr(&self, child_count: u32) -> (r: CsgNodeRepr) {
        let mut p: [u32; 12] = [0, 0, 0, 0, 0, 0, 0, 0, 0, 0, 0, 0];
        pack_vec3(&mut p, 0, self.curvature_normal);
        proof {
            broadcast use vstd::array::group_array_axioms;

            assert(p@ =~= self.spec_to_repr(child_count).data@);
            assert(p =~= self.spec_to_repr(child_count).data);
        }
        CsgNodeRepr::new(opcodes::BEND, child_count, p)
    }
}

/// Moves, scales and rotates the child. Slots: `offset` in 0..3, `size` in 3..6, `rotation` in 6..10.
#[derive(Debug, Clone, Copy, PartialEq, Eq)]
pub struct Transform {
    pub offset: Vec3,
    pub size: Vec3,
    pub rotation: Quat,
}

impl CsgNode for Transform {
    open spec fn spec_to_repr(&self, child_count: u32) -> CsgNodeRepr {
        node_repr(
            opcodes::TRANSFORM,
            child_count,
            [self.offset.x, self.offset.y, self.offset.z, self.size.x, self.size.y, self.size.z, self.rotation.x, self.rotation.y, self.rotation.z, self.rotation.w, 0, 0],
        )
    }

    fn to_repr(&self, child_count: u32) -> (r: CsgNodeRepr) {
        let mut p: [u32; 12] = [0, 0, 0, 0, 0, 0, 0, 0, 0, 0, 0, 0];
        pack_vec3(&mut p, 0, self.offset);
        pack_vec3(&mut p, 3, self.size);
        pack_quat(&mut p, 6, self.rotation);
        proof {
            broadcast use vstd::array::group_array_axioms;

            assert(p@ =~= self.spec_to_repr(child_count).data@);
            assert(p =~= self.spec_to_repr(child_count).data);
        }
        CsgNodeRepr::new(opcodes::TRANSFORM, child_count, p)
    }
}

/// Union of the children. No parameter slots.
#[derive(Debug, Clone, Copy, PartialEq, Eq)]
pub struct Union;

impl CsgNode for Union {
    open spec fn spec_to_repr(&self, child_count: u32) -> CsgNodeRepr {
        node_repr(
            opcodes::UNION,
            child_count,
            [0, 0, 0, 0, 0, 0, 0, 0, 0, 0, 0, 0],
        )
    }

    fn to_repr(&self, child_count: u32) -> (r: CsgNodeRepr) {
        let p: [u32; 12] = [0, 0, 0, 0, 0, 0, 0, 0, 0, 0, 0, 0];
        proof {
            broadcast use vstd::array::group_array_axioms;

            assert(p@ =~= self.spec_to_repr(child_count).data@);
            assert(p =~= self.spec_to_repr(child_count).data);
        }
        CsgNodeRepr::new(opcodes::UNION, child_count, p)
    }
}

/// Intersection of the children. No parameter slots.
#[derive(Debug, Clone, Copy, PartialEq, Eq)]
pub struct Intersect;

impl CsgNode for Intersect {
    open spec fn spec_to_repr(&self, child_count: u32) -> CsgNodeRepr {
        node_repr(
            opcodes::INTERSECT,
            child_count,
            [0, 0, 0, 0, 0, 0, 0, 0, 0, 0, 0, 0],
        )
    }

    fn to_repr(&self, child_count: u32) -> (r: CsgNodeRepr) {
        let p: [u32; 12] = [0, 0, 0, 0, 0, 0, 0, 0, 0, 0, 0, 0];
        proof {
            broadcast use vstd::array::group_array_axioms;

            assert(p@ =~= self.spec_to_repr(child_count).data@);
            assert(p =~= self.spec_to_repr(child_count).data);
        }
        CsgNodeRepr::new(opcodes::INTERSECT, child_count, p)
    }
}

/// Smooth union of the children. Slots: `amount` in 0.
#[derive(Debug, Clone, Copy, PartialEq, Eq)]
pub struct SmoothUnion {
    pub amount: FloatBits,
}

impl CsgNode for SmoothUnion {
    open spec fn spec_to_repr(&self, child_count: u32) -> CsgNodeRepr {
        node_repr(
            opcodes::SMOOTH_UNION,
            child_count,
            [self.amount, 0, 0, 0, 0, 0, 0, 0, 0, 0, 0, 0],
        )
    }

    fn to_repr(&self, child_count: u32) -> (r: CsgNodeRepr) {
        let mut p: [u32; 12] = [0, 0, 0, 0, 0, 0, 0, 0, 0, 0, 0, 0];
        p[0] = self.amount;
        proof {
            broadcast use vstd::array::group_array_axioms;

            assert(p@ =~= self.spec_to_repr(child_count).data@);
            assert(p =~= self.spec_to_repr(child_count).data);
        }
        CsgNodeRepr::new(opcodes::SMOOTH_UNION, child_count, p)
    }
}

/// Smooth intersection of the children. Slots: `amount` in 0.
#[derive(Debug, Clone, Copy, PartialEq, Eq)]
pub struct SmoothIntersect {
    pub amount: FloatBits,
}

impl CsgNode for SmoothIntersect {
    open spec fn spec_to_repr(&self, child_count: u32) -> CsgNodeRepr {
        node_repr(
            opcodes::SMOOTH_INTERSECT,
            child_count,
            [self.amount, 0, 0, 0, 0, 0, 0, 0, 0, 0, 0, 0],
        )
    }

    fn to_repr(&self, child_count: u32) -> (r: CsgNodeRepr) {
        let mut p: [u32; 12] = [0, 0, 0, 0, 0, 0, 0, 0, 0, 0, 0, 0];
        p[0] = self.amount;
        proof {
            broadcast use vstd::array::group_array_axioms;

            assert(p@ =~= self.spec_to_repr(child_count).data@);
            assert(p =~= self.spec_to_repr(child_count).data);
        }
        CsgNodeRepr::new(opcodes::SMOOTH_INTERSECT, child_count, p)
    }
}

/// The first child minus the second. No parameter slots.
#[derive(Debug, Clone, Copy, PartialEq, Eq)]
pub struct Difference;

impl CsgNode for Difference {
    open spec fn spec_to_repr(&self, child_count: u32) -> CsgNodeRepr {
        node_repr(
            opcodes::DIFFERENCE,
            child_count,
            [0, 0, 0, 0, 0, 0, 0, 0, 0, 0, 0, 0],
        )
    }

    fn to_repr(&self, child_count: u32) -> (r: CsgNodeRepr) {
        let p: [u32; 12] = [0, 0, 0, 0, 0, 0, 0, 0, 0, 0, 0, 0];
        proof {
            broadcast use vstd::array::group_array_axioms;

            assert(p@ =~= self.spec_to_repr(child_count).data@);
            assert(p =~= self.spec_to_repr(child_count).data);
        }
        CsgNodeRepr::new(opcodes::DIFFERENCE, child_count, p)
    }
}

/// Smooth difference of two children. Slots: `amount` in 0.
#[derive(Debug, Clone, Copy, PartialEq, Eq)]
pub struct SmoothDifference {
    pub amount: FloatBits,
}

impl CsgNode for SmoothDifference {
    open spec fn spec_to_repr(&self, child_count: u32) -> CsgNodeRepr {
        node_repr(
            opcodes::SMOOTH_DIFFERENCE,
            child_count,
            [self.amount, 0, 0, 0, 0, 0, 0, 0, 0, 0, 0, 0],
        )
    }

    fn to_repr(&self, child_count: u32) -> (r: CsgNodeRepr) {
        let mut p: [u32; 12] = [0, 0, 0, 0, 0, 0, 0, 0, 0, 0, 0, 0];
        p[0] = self.amount;
        proof {
            broadcast use vstd::array::group_array_axioms;

            assert(p@ =~= self.spec_to_repr(child_count).data@);
            assert(p =~= self.spec_to_repr(child_count).data);
        }
        CsgNodeRepr::new(opcodes::SMOOTH_DIFFERENCE, child_count, p)
    }
}

} // verus!
