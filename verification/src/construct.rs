//! Constructs: spaceships, their parts, and bases (spaceships attached to
//! the ground).
use vstd::prelude::*;

use crate::csg::packed::PackedCsgTrees;

verus! {

/// A building part: three CSG trees for its shell, its interior and its
/// furniture.
pub struct Segment {
    inner: PackedCsgTrees<(), 3>,
}

/// A whole construct: three CSG trees for its shell, its interior and its
/// furniture.
pub struct Construct {
    inner: PackedCsgTrees<(), 3>,
}

} // verus!
