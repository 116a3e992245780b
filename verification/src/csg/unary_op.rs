//! Unary modifiers of packed CSG trees.
use vstd::prelude::*;

use crate::csg::types::{FloatBits, Quat, Vec3};

verus! {

/// A unary modifier, with its parameters.
#[derive(Debug, Clone, Copy, PartialEq, Eq)]
pub enum UnaryOp {
    Round { radius: FloatBits },
    Extrude { extrusion: Vec3 },
    Revolve { axis_base: Vec3, axis_dir: Vec3 },
    PlanarSymmetry { plane_base: Vec3, plane_normal: Vec3 },
    AxialSymmetry { axis_base: Vec3, axis_dir: Vec3, clone_count: u32 },
    Elongate { elongation: Vec3 },
    Onion { thickness: FloatBits },
    Twist { direction: Vec3, amount: FloatBits },
    Bend { curvature_normal: Vec3 },
    Transform { offset: Vec3, size: Vec3, rotation: Quat },
}

impl UnaryOp {
    /// Number of variants.
    pub const VAR_COUNT: u32 = 10;

    /// Index of the variant, in declaration order.
    pub open spec fn spec_id(&self) -> u32 {
        match self {
            UnaryOp::Round { .. } => 0,
            UnaryOp::Extrude { .. } => 1,
            UnaryOp::Revolve { .. } => 2,
            UnaryOp::PlanarSymmetry { .. } => 3,
            UnaryOp::AxialSymmetry { .. } => 4,
            UnaryOp::Elongate { .. } => 5,
            UnaryOp::Onion { .. } => 6,
            UnaryOp::Twist { .. } => 7,
            UnaryOp::Bend { .. } => 8,
            UnaryOp::Transform { .. } => 9,
        }
    }

    /// Index of the variant, in declaration order.
    pub fn id(&self) -> (id: u32)
        ensures
            id == self.spec_id(),
            id < Self::VAR_COUNT,
    {
        match self {
            UnaryOp::Round { .. } => 0,
            UnaryOp::Extrude { .. } => 1,
            UnaryOp::Revolve { .. } => 2,
            UnaryOp::PlanarSymmetry { .. } => 3,
            UnaryOp::AxialSymmetry { .. } => 4,
            UnaryOp::Elongate { .. } => 5,
            UnaryOp::Onion { .. } => 6,
            UnaryOp::Twist { .. } => 7,
            UnaryOp::Bend { .. } => 8,
            UnaryOp::Transform { .. } => 9,
        }
    }

    /// Label of the variant, as a tree listing shows it.
    pub open spec fn spec_label(&self) -> Seq<char> {
        match self {
            UnaryOp::Round { .. } => "Round"@,
            UnaryOp::Extrude { .. } => "Extrude"@,
            UnaryOp::Revolve { .. } => "Revolve"@,
            UnaryOp::PlanarSymmetry { .. } => "PlanarSymmetry"@,
            UnaryOp::AxialSymmetry { .. } => "AxialSymmetry"@,
            UnaryOp::Elongate { .. } => "Elongate"@,
            UnaryOp::Onion { .. } => "Onion"@,
            UnaryOp::Twist { .. } => "Twist"@,
            UnaryOp::Bend { .. } => "Bend"@,
            UnaryOp::Transform { .. } => "Transform"@,
        }
    }

    /// The text that printing the modifier writes: its label.
    pub fn pretty_print(&self) -> (text: &'static str)
        ensures
            text@ == self.spec_label(),
    {
        match self {
            UnaryOp::Round { .. } => "Round",
            UnaryOp::Extrude { .. } => "Extrude",
            UnaryOp::Revolve { .. } => "Revolve",
            UnaryOp::PlanarSymmetry { .. } => "PlanarSymmetry",
            UnaryOp::AxialSymmetry { .. } => "AxialSymmetry",
            UnaryOp::Elongate { .. } => "Elongate",
            UnaryOp::Onion { .. } => "Onion",
            UnaryOp::Twist { .. } => "Twist",
            UnaryOp::Bend { .. } => "Bend",
            UnaryOp::Transform { .. } => "Transform",
        }
    }
}

} // verus!
