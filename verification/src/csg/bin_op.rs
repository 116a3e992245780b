//! Binary combinators of packed CSG trees.
use vstd::prelude::*;

use crate::csg::types::FloatBits;

verus! {

/// A binary combinator; the smooth ones carry a blending amount.
#[derive(Debug, Clone, Copy, PartialEq, Eq)]
pub enum BinOp {
    Union,
    Inter,
    Diff,
    SmoothUnion { amount: FloatBits },
    SmoothInter { amount: FloatBits },
    SmoothDiff { amount: FloatBits },
}

impl BinOp {
    /// Number of variants.
    pub const VAR_COUNT: u32 = 6;

    /// Index of the variant, in declaration order.
    pub open spec fn spec_id(&self) -> u32 {
        match self {
            BinOp::Union => 0,
            BinOp::Inter => 1,
            BinOp::Diff => 2,
            BinOp::SmoothUnion { .. } => 3,
            BinOp::SmoothInter { .. } => 4,
            BinOp::SmoothDiff { .. } => 5,
        }
    }

    /// Index of the variant, in declaration order.
    pub fn id(&self) -> (id: u32)
        ensures
            id == self.spec_id(),
            id < Self::VAR_COUNT,
    {
        match self {
            BinOp::Union => 0,
            BinOp::Inter => 1,
            BinOp::Diff => 2,
            BinOp::SmoothUnion { .. } => 3,
            BinOp::SmoothInter { .. } => 4,
            BinOp::SmoothDiff { .. } => 5,
        }
    }

    /// Label of the variant, as a tree listing shows it.
    pub open spec fn spec_label(&self) -> Seq<char> {
        match self {
            BinOp::Union => "Union"@,
            BinOp::Inter => "Inter"@,
            BinOp::Diff => "Diff"@,
            BinOp::SmoothUnion { .. } => "SmoothUnion"@,
            BinOp::SmoothInter { .. } => "SmoothInter"@,
            BinOp::SmoothDiff { .. } => "SmoothDiff"@,
        }
    }

    /// The text that printing the combinator writes: its label.
    pub fn pretty_print(&self) -> (text: &'static str)
        ensures
            text@ == self.spec_label(),
    {
        match self {
            BinOp::Union => "Union",
            BinOp::Inter => "Inter",
            BinOp::Diff => "Diff",
            BinOp::SmoothUnion { .. } => "SmoothUnion",
            BinOp::SmoothInter { .. } => "SmoothInter",
            BinOp::SmoothDiff { .. } => "SmoothDiff",
        }
    }
}

} // verus!
