//! Constructive solid geometry.
//!
//! Trees are stored in contiguous memory, in prefix notation: a node is
//! followed by its children, each of them written out the same way.
pub mod bin_op;
pub mod layout;
pub mod opcodes;
pub mod packed;
pub mod ops;
pub mod prefix;
pub mod primitive;
pub mod repr;
pub mod tree;
pub mod types;
pub mod unary_op;

use vstd::prelude::*;

use crate::csg::repr::CsgNodeRepr;

verus! {

/// A node type that can be written into the GPU buffer.
pub trait CsgNode {
    /// The node as written, for the given number of children.
    spec fn spec_to_repr(&self, child_count: u32) -> CsgNodeRepr;

    /// Writes the node, for the given number of children.
    fn to_repr(&self, child_count: u32) -> (r: CsgNodeRepr)
        ensures
            r == self.spec_to_repr(child_count),
    ;
}

} // verus!
