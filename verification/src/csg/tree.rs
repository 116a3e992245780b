//! Authored CSG trees and their flattening into the GPU buffer layout.
use vstd::prelude::*;

use crate::csg::opcodes;
use crate::csg::prefix::{forest_len, subtree_len};
use crate::csg::ops;
use crate::csg::primitive;
use crate::csg::repr::{node_repr, CsgNodeRepr};
use crate::csg::CsgNode;

verus! {

/// Authored CSG tree. Each variant is a primitive leaf, a unary operator
/// with one boxed child, an n-ary combinator with a list of children, or an
/// asymmetric binary operator (difference) with a base and a subtracted part.
///
/// Convert it to the GPU layout with [`CsgTree::flatten`].
#[derive(Debug)]
#[allow(inconsistent_fields)]
pub enum CsgTree {
    /// Empty CSG tree.
    Empty,

    Sphere(primitive::Sphere),
    Cube(primitive::Cube),
    Torus(primitive::Torus),
    CubeFrame(primitive::CubeFrame),
    Cone(primitive::Cone),
    Triangle(primitive::Triangle),
    RegularHexagon(primitive::RegularHexagon),
    Capsule(primitive::Capsule),
    Cylinder(primitive::Cylinder),
    Ellipse(primitive::Ellipse),
    Octahedron(primitive::Octahedron),
    Pyramid(primitive::Pyramid),
    Round { node: ops::Round, child: Box<CsgTree> },
    Extrude { node: ops::Extrude, child: Box<CsgTree> },
    Revolve { node: ops::Revolve, child: Box<CsgTree> },
    PlanarSym { node: ops::PlanarSymmetry, child: Box<CsgTree> },
    AxialSym { node: ops::AxialSymmetry, child: Box<CsgTree> },
    Elongate { node: ops::Elongate, child: Box<CsgTree> },
    Onion { node: ops::Onion, child: Box<CsgTree> },
    Twist { node: ops::Twist, child: Box<CsgTree> },
    Bend { node: ops::Bend, child: Box<CsgTree> },
    Transform { node: ops::Transform, child: Box<CsgTree> },
    Union { children: Vec<CsgTree> },
    Intersect { children: Vec<CsgTree> },
    SmoothUnion { node: ops::SmoothUnion, children: Vec<CsgTree> },
    SmoothIntersect { node: ops::SmoothIntersect, children: Vec<CsgTree> },
    Difference { base: Box<CsgTree>, subtract: Box<CsgTree> },
    SmoothDifference { node: ops::SmoothDifference, base: Box<CsgTree>, subtract: Box<CsgTree> },
}

/// The node written for the empty tree.
pub open spec fn empty_repr() -> CsgNodeRepr {
    node_repr(opcodes::EMPTY, 0, [0u32, 0, 0, 0, 0, 0, 0, 0, 0, 0, 0, 0])
}

/// The node written for the root of `t`, followed by nothing else.
pub open spec fn root_repr(t: CsgTree) -> CsgNodeRepr {
    match t {
        CsgTree::Empty => empty_repr(),
        CsgTree::Sphere(p) => p.spec_to_repr(0),
        CsgTree::Cube(p) => p.spec_to_repr(0),
        CsgTree::Torus(p) => p.spec_to_repr(0),
        CsgTree::CubeFrame(p) => p.spec_to_repr(0),
        CsgTree::Cone(p) => p.spec_to_repr(0),
        CsgTree::Triangle(p) => p.spec_to_repr(0),
        CsgTree::RegularHexagon(p) => p.spec_to_repr(0),
        CsgTree::Capsule(p) => p.spec_to_repr(0),
        CsgTree::Cylinder(p) => p.spec_to_repr(0),
        CsgTree::Ellipse(p) => p.spec_to_repr(0),
        CsgTree::Octahedron(p) => p.spec_to_repr(0),
        CsgTree::Pyramid(p) => p.spec_to_repr(0),
        CsgTree::Round { node, .. } => node.spec_to_repr(1),
        CsgTree::Extrude { node, .. } => node.spec_to_repr(1),
        CsgTree::Revolve { node, .. } => node.spec_to_repr(1),
        CsgTree::PlanarSym { node, .. } => node.spec_to_repr(1),
        CsgTree::AxialSym { node, .. } => node.spec_to_repr(1),
        CsgTree::Elongate { node, .. } => node.spec_to_repr(1),
        CsgTree::Onion { node, .. } => node.spec_to_repr(1),
        CsgTree::Twist { node, .. } => node.spec_to_repr(1),
        CsgTree::Bend { node, .. } => node.spec_to_repr(1),
        CsgTree::Transform { node, .. } => node.spec_to_repr(1),
        CsgTree::Union { children } => ops::Union.spec_to_repr(children.len() as u32),
        CsgTree::Intersect { children } => ops::Intersect.spec_to_repr(children.len() as u32),
        CsgTree::SmoothUnion { node, children } => node.spec_to_repr(children.len() as u32),
        CsgTree::SmoothIntersect { node, children } => node.spec_to_repr(children.len() as u32),
        CsgTree::Difference { .. } => ops::Difference.spec_to_repr(2),
        CsgTree::SmoothDifference { node, .. } => node.spec_to_repr(2),
    }
}

/// The subtrees of `t`, in the order they are written after its root.
pub open spec fn children_of(t: CsgTree) -> Seq<CsgTree> {
    match t {
        CsgTree::Round { child, .. } => seq![*child],
        CsgTree::Extrude { child, .. } => seq![*child],
        CsgTree::Revolve { child, .. } => seq![*child],
        CsgTree::PlanarSym { child, .. } => seq![*child],
        CsgTree::AxialSym { child, .. } => seq![*child],
        CsgTree::Elongate { child, .. } => seq![*child],
        CsgTree::Onion { child, .. } => seq![*child],
        CsgTree::Twist { child, .. } => seq![*child],
        CsgTree::Bend { child, .. } => seq![*child],
        CsgTree::Transform { child, .. } => seq![*child],
        CsgTree::Union { children, .. } => children@,
        CsgTree::Intersect { children, .. } => children@,
        CsgTree::SmoothUnion { children, .. } => children@,
        CsgTree::SmoothIntersect { children, .. } => children@,
        CsgTree::Difference { base, subtract } => seq![*base, *subtract],
        CsgTree::SmoothDifference { base, subtract, .. } => seq![*base, *subtract],
        _ => seq![],
    }
}

/// The prefix-order encoding of a tree: its root, then each child encoded
/// in turn, left to right.
pub open spec fn flat(t: CsgTree) -> Seq<CsgNodeRepr>
    decreases t,
{
    match t {
        CsgTree::Empty => seq![empty_repr()],
        CsgTree::Sphere(p) => seq![p.spec_to_repr(0)],
        CsgTree::Cube(p) => seq![p.spec_to_repr(0)],
        CsgTree::Torus(p) => seq![p.spec_to_repr(0)],
        CsgTree::CubeFrame(p) => seq![p.spec_to_repr(0)],
        CsgTree::Cone(p) => seq![p.spec_to_repr(0)],
        CsgTree::Triangle(p) => seq![p.spec_to_repr(0)],
        CsgTree::RegularHexagon(p) => seq![p.spec_to_repr(0)],
        CsgTree::Capsule(p) => seq![p.spec_to_repr(0)],
        CsgTree::Cylinder(p) => seq![p.spec_to_repr(0)],
        CsgTree::Ellipse(p) => seq![p.spec_to_repr(0)],
        CsgTree::Octahedron(p) => seq![p.spec_to_repr(0)],
        CsgTree::Pyramid(p) => seq![p.spec_to_repr(0)],
        CsgTree::Round { node, child } => seq![node.spec_to_repr(1)] + flat(*child),
        CsgTree::Extrude { node, child } => seq![node.spec_to_repr(1)] + flat(*child),
        CsgTree::Revolve { node, child } => seq![node.spec_to_repr(1)] + flat(*child),
        CsgTree::PlanarSym { node, child } => seq![node.spec_to_repr(1)] + flat(*child),
        CsgTree::AxialSym { node, child } => seq![node.spec_to_repr(1)] + flat(*child),
        CsgTree::Elongate { node, child } => seq![node.spec_to_repr(1)] + flat(*child),
        CsgTree::Onion { node, child } => seq![node.spec_to_repr(1)] + flat(*child),
        CsgTree::Twist { node, child } => seq![node.spec_to_repr(1)] + flat(*child),
        CsgTree::Bend { node, child } => seq![node.spec_to_repr(1)] + flat(*child),
        CsgTree::Transform { node, child } => seq![node.spec_to_repr(1)] + flat(*child),
        CsgTree::Union { children } => seq![ops::Union.spec_to_repr(children.len() as u32)] + flat_all(children@),
        CsgTree::Intersect { children } => seq![ops::Intersect.spec_to_repr(children.len() as u32)] + flat_all(children@),
        CsgTree::SmoothUnion { node, children } => seq![node.spec_to_repr(children.len() as u32)] + flat_all(children@),
        CsgTree::SmoothIntersect { node, children } => seq![node.spec_to_repr(children.len() as u32)] + flat_all(children@),
        CsgTree::Difference { base, subtract } => seq![ops::Difference.spec_to_repr(2)] + flat(*base) + flat(*subtract),
        CsgTree::SmoothDifference { node, base, subtract } => seq![node.spec_to_repr(2)] + flat(*base) + flat(*subtract),
    }
}

/// The encodings of a list of trees, one after the other.
pub open spec fn flat_all(ts: Seq<CsgTree>) -> Seq<CsgNodeRepr>
    decreases ts,
{
    if ts.len() == 0 {
        seq![]
    } else {
        flat(ts[0]) + flat_all(ts.drop_first())
    }
}

/// Appending a tree to a list appends its encoding.
pub proof fn lemma_flat_all_push(ts: Seq<CsgTree>, t: CsgTree)
    ensures
        flat_all(ts.push(t)) == flat_all(ts) + flat(t),
    decreases ts.len(),
{
    if ts.len() == 0 {
        assert(ts.push(t).drop_first() =~= seq![]);
        assert(flat_all(ts.push(t)) =~= flat(t) + flat_all(seq![]));
    } else {
        lemma_flat_all_push(ts.drop_first(), t);
        assert(ts.push(t).drop_first() =~= ts.drop_first().push(t));
        assert(flat_all(ts.push(t)) =~= flat(ts[0]) + flat_all(ts.drop_first().push(t)));
    }
}

impl CsgTree {
    /// Flattens the tree into its prefix-order node list.
    pub fn flatten(&self) -> (nodes: Vec<CsgNodeRepr>)
        ensures
            nodes@ == flat(*self),
    {
        let mut nodes = Vec::new();
        self.flatten_into(&mut nodes);
        nodes
    }

    /// Appends the prefix-order encoding of the tree to `out`.
    pub fn flatten_into(&self, out: &mut Vec<CsgNodeRepr>)
        ensures
            final(out)@ == old(out)@ + flat(*self),
        decreases self,
    {
        match self {
            CsgTree::Empty => out.push(CsgNodeRepr::new(opcodes::EMPTY, 0, [0, 0, 0, 0, 0, 0, 0, 0, 0, 0, 0, 0])),
            CsgTree::Sphere(primitive) => out.push(primitive.to_repr(0)),
            CsgTree::Cube(primitive) => out.push(primitive.to_repr(0)),
            CsgTree::Torus(primitive) => out.push(primitive.to_repr(0)),
            CsgTree::CubeFrame(primitive) => out.push(primitive.to_repr(0)),
            CsgTree::Cone(primitive) => out.push(primitive.to_repr(0)),
            CsgTree::Triangle(primitive) => out.push(primitive.to_repr(0)),
            CsgTree::RegularHexagon(primitive) => out.push(primitive.to_repr(0)),
            CsgTree::Capsule(primitive) => out.push(primitive.to_repr(0)),
            CsgTree::Cylinder(primitive) => out.push(primitive.to_repr(0)),
            CsgTree::Ellipse(primitive) => out.push(primitive.to_repr(0)),
            CsgTree::Octahedron(primitive) => out.push(primitive.to_repr(0)),
            CsgTree::Pyramid(primitive) => out.push(primitive.to_repr(0)),
            CsgTree::Round { node, child } => {
                out.push(node.to_repr(1));
                child.flatten_into(out);
            },
            CsgTree::Extrude { node, child } => {
                out.push(node.to_repr(1));
                child.flatten_into(out);
            },
            CsgTree::Revolve { node, child } => {
                out.push(node.to_repr(1));
                child.flatten_into(out);
            },
            CsgTree::PlanarSym { node, child } => {
                out.push(node.to_repr(1));
                child.flatten_into(out);
            },
            CsgTree::AxialSym { node, child } => {
                out.push(node.to_repr(1));
                child.flatten_into(out);
            },
            CsgTree::Elongate { node, child } => {
                out.push(node.to_repr(1));
                child.flatten_into(out);
            },
            CsgTree::Onion { node, child } => {
                out.push(node.to_repr(1));
                child.flatten_into(out);
            },
            CsgTree::Twist { node, child } => {
                out.push(node.to_repr(1));
                child.flatten_into(out);
            },
            CsgTree::Bend { node, child } => {
                out.push(node.to_repr(1));
                child.flatten_into(out);
            },
            CsgTree::Transform { node, child } => {
                out.push(node.to_repr(1));
                child.flatten_into(out);
            },
            CsgTree::Union { children } => {
                out.push(ops::Union.to_repr(children.len() as u32));
                Self::flatten_children(children, out);
            },
            CsgTree::Intersect { children } => {
                out.push(ops::Intersect.to_repr(children.len() as u32));
                Self::flatten_children(children, out);
            },
            CsgTree::SmoothUnion { node, children } => {
                out.push(node.to_repr(children.len() as u32));
                Self::flatten_children(children, out);
            },
            CsgTree::SmoothIntersect { node, children } => {
                out.push(node.to_repr(children.len() as u32));
                Self::flatten_children(children, out);
            },
            CsgTree::Difference { base, subtract } => {
                out.push(ops::Difference.to_repr(2));
                base.flatten_into(out);
                subtract.flatten_into(out);
            },
            CsgTree::SmoothDifference { node, base, subtract } => {
                out.push(node.to_repr(2));
                base.flatten_into(out);
                subtract.flatten_into(out);
            },
        }
    }

    /// Appends the encodings of `children`, left to right, to `out`.
    fn flatten_children(children: &Vec<CsgTree>, out: &mut Vec<CsgNodeRepr>)
        ensures
            final(out)@ == old(out)@ + flat_all(children@),
        decreases children,
    {
        let ghost start = out@;
        let mut i: usize = 0;
        while i < children.len()
            invariant
                i <= children.len(),
                out@ == start + flat_all(children@.take(i as int)),
            decreases children.len() - i,
        {
            proof {
                assert(children@.take(i + 1) =~= children@.take(i as int).push(children@[i as int]));
                lemma_flat_all_push(children@.take(i as int), children@[i as int]);
            }
            children[i].flatten_into(out);
            i = i + 1;
        }
        assert(children@.take(i as int) =~= children@);
    }
}

/// Every combinator of the tree has at most `u32::MAX` children, so that its
/// child count fits in the node it is written as.
pub open spec fn well_formed(t: CsgTree) -> bool
    decreases t,
{
    match t {
        CsgTree::Round { child, .. } | CsgTree::Extrude { child, .. } | CsgTree::Revolve {
            child,
            ..
        } | CsgTree::PlanarSym { child, .. } | CsgTree::AxialSym { child, .. }
        | CsgTree::Elongate { child, .. } | CsgTree::Onion { child, .. } | CsgTree::Twist {
            child,
            ..
        } | CsgTree::Bend { child, .. } | CsgTree::Transform { child, .. } => well_formed(*child),
        CsgTree::Union { children } | CsgTree::Intersect { children } | CsgTree::SmoothUnion {
            children,
            ..
        } | CsgTree::SmoothIntersect { children, .. } => {
            &&& children.len() <= u32::MAX
            &&& all_well_formed(children@)
        },
        CsgTree::Difference { base, subtract } | CsgTree::SmoothDifference {
            base,
            subtract,
            ..
        } => well_formed(*base) && well_formed(*subtract),
        _ => true,
    }
}

/// Every tree of the list is well formed.
pub open spec fn all_well_formed(ts: Seq<CsgTree>) -> bool
    decreases ts,
{
    ts.len() > 0 ==> well_formed(ts[0]) && all_well_formed(ts.drop_first())
}

/// The encoding of a tree is its root followed by the encodings of its
/// children; the root records how many children follow.
pub proof fn lemma_flat_unfold(t: CsgTree)
    ensures
        flat(t) == seq![root_repr(t)] + flat_all(children_of(t)),
        well_formed(t) ==> root_repr(t).child_count == children_of(t).len(),
        well_formed(t) ==> all_well_formed(children_of(t)),
{
    reveal_with_fuel(flat_all, 3);
    match t {
        CsgTree::Difference { base, subtract } | CsgTree::SmoothDifference {
            base,
            subtract,
            ..
        } => {
            assert(seq![*base, *subtract].drop_first() =~= seq![*subtract]);
            assert(seq![*subtract].drop_first() =~= seq![]);
            reveal_with_fuel(all_well_formed, 3);
        },
        CsgTree::Round { child, .. } | CsgTree::Extrude { child, .. } | CsgTree::Revolve {
            child,
            ..
        } | CsgTree::PlanarSym { child, .. } | CsgTree::AxialSym { child, .. }
        | CsgTree::Elongate { child, .. } | CsgTree::Onion { child, .. } | CsgTree::Twist {
            child,
            ..
        } | CsgTree::Bend { child, .. } | CsgTree::Transform { child, .. } => {
            assert(seq![*child].drop_first() =~= seq![]);
            reveal_with_fuel(all_well_formed, 2);
        },
        CsgTree::Union { children } | CsgTree::Intersect { children } | CsgTree::SmoothUnion {
            children,
            ..
        } | CsgTree::SmoothIntersect { children, .. } => {
            assert(children_of(t) == children@);
        },
        _ => {},
    }
    assert(flat(t) =~= seq![root_repr(t)] + flat_all(children_of(t)));
}

/// A tree is encoded with at least one node.
pub proof fn lemma_flat_nonempty(t: CsgTree)
    ensures
        flat(t).len() >= 1,
{
    lemma_flat_unfold(t);
}

/// Read as a prefix-order tree, the encoding of `t` spans exactly its own
/// nodes, whatever follows it.
proof fn lemma_flat_subtree_len(t: CsgTree, rest: Seq<CsgNodeRepr>)
    requires
        well_formed(t),
    ensures
        subtree_len(flat(t) + rest) == flat(t).len(),
    decreases flat(t).len(), 0nat,
{
    lemma_flat_unfold(t);
    let cs = children_of(t);
    assert((flat(t) + rest).drop_first() =~= flat_all(cs) + rest);
    lemma_flat_all_forest_len(cs, rest);
}

/// Read as `ts.len()` prefix-order trees, the encodings of `ts` span
/// exactly their own nodes, whatever follows them.
proof fn lemma_flat_all_forest_len(ts: Seq<CsgTree>, rest: Seq<CsgNodeRepr>)
    requires
        all_well_formed(ts),
    ensures
        forest_len(flat_all(ts) + rest, ts.len()) == flat_all(ts).len(),
    decreases flat_all(ts).len(), 1nat,
{
    if ts.len() > 0 {
        let tail = ts.drop_first();
        let s = flat_all(ts) + rest;
        lemma_flat_nonempty(ts[0]);
        assert(s =~= flat(ts[0]) + (flat_all(tail) + rest));
        lemma_flat_subtree_len(ts[0], flat_all(tail) + rest);
        let c = flat(ts[0]).len();
        if c < s.len() {
            assert(s.skip(c as int) =~= flat_all(tail) + rest);
            lemma_flat_all_forest_len(tail, rest);
        } else {
            if tail.len() > 0 {
                lemma_flat_nonempty(tail[0]);
                assert(flat_all(tail).len() >= 1);
            }
            assert(flat_all(tail) =~= seq![]);
        }
    }
}

/// Law: the flattened form of a well formed tree is one complete
/// prefix-order tree. Read from its first node, the tree ends exactly at its
/// last node, and trees written after it are left untouched, so flattened
/// trees can be packed one after the other.
pub proof fn lemma_flatten_is_prefix_tree(t: CsgTree, rest: Seq<CsgNodeRepr>)
    requires
        well_formed(t),
    ensures
        subtree_len(flat(t)) == flat(t).len(),
        subtree_len(flat(t) + rest) == flat(t).len(),
{
    lemma_flat_subtree_len(t, rest);
    lemma_flat_subtree_len(t, seq![]);
    assert(flat(t) + seq![] =~= flat(t));
}

/// The flattened form of each child, in order.
pub open spec fn flat_blocks(children: Seq<CsgTree>) -> Seq<Seq<CsgNodeRepr>> {
    children.map_values(|c: CsgTree| flat(c))
}

/// Where block `i` starts when the blocks are written one after the other.
pub open spec fn block_start(blocks: Seq<Seq<CsgNodeRepr>>, i: int) -> int
    decreases i,
{
    if i <= 0 {
        0
    } else {
        block_start(blocks, i - 1) + blocks[i - 1].len()
    }
}

/// The blocks written one after the other.
pub open spec fn concat_blocks(blocks: Seq<Seq<CsgNodeRepr>>) -> Seq<CsgNodeRepr>
    decreases blocks.len(),
{
    if blocks.len() == 0 {
        seq![]
    } else {
        blocks[0] + concat_blocks(blocks.drop_first())
    }
}

/// Number of nodes that the first `i` children take once flattened.
pub open spec fn nodes_before(children: Seq<CsgTree>, i: int) -> int {
    block_start(flat_blocks(children), i)
}

/// After the node at index 0, the children are written one after the
/// other, in the order they were authored, and nothing else follows.
pub open spec fn children_laid_out(f: Seq<CsgNodeRepr>, children: Seq<CsgTree>) -> bool {
    &&& f.len() == 1 + nodes_before(children, children.len() as int)
    &&& forall|i: int|
        0 <= i < children.len() ==> f.subrange(
            1 + nodes_before(children, i),
            1 + nodes_before(children, i) + flat(children[i]).len(),
        ) == #[trigger] flat(children[i])
}

/// After the node at index 0 comes the base, then the subtracted part, and
/// nothing else: the first child the GPU reads is the base.
pub open spec fn base_then_subtract(f: Seq<CsgNodeRepr>, base: CsgTree, subtract: CsgTree) -> bool {
    &&& f.len() == 1 + flat(base).len() + flat(subtract).len()
    &&& f.subrange(1, 1 + flat(base).len() as int) == flat(base)
    &&& f.subrange(1 + flat(base).len() as int, f.len() as int) == flat(subtract)
}


proof fn lemma_block_start_shift(blocks: Seq<Seq<CsgNodeRepr>>, i: int)
    requires
        0 <= i < blocks.len(),
    ensures
        block_start(blocks, i + 1) == blocks[0].len() + block_start(blocks.drop_first(), i),
    decreases i,
{
    let rest = blocks.drop_first();
    assert(block_start(blocks, i + 1) == block_start(blocks, i) + blocks[i].len());
    if i > 0 {
        lemma_block_start_shift(blocks, i - 1);
        assert(rest[i - 1] == blocks[i]);
        assert(block_start(rest, i) == block_start(rest, i - 1) + rest[i - 1].len());
    } else {
        assert(block_start(rest, 0) == 0);
        assert(block_start(blocks, 0) == 0);
    }
}

proof fn lemma_block_start_mono(blocks: Seq<Seq<CsgNodeRepr>>, i: int, j: int)
    requires
        0 <= i <= j,
    ensures
        0 <= block_start(blocks, i) <= block_start(blocks, j),
    decreases j,
{
    if j > i {
        lemma_block_start_mono(blocks, i, j - 1);
    } else if i > 0 {
        lemma_block_start_mono(blocks, 0, i - 1);
    }
}

proof fn lemma_concat_blocks_layout(blocks: Seq<Seq<CsgNodeRepr>>)
    ensures
        concat_blocks(blocks).len() == block_start(blocks, blocks.len() as int),
        forall|i: int|
            0 <= i < blocks.len() ==> concat_blocks(blocks).subrange(
                block_start(blocks, i),
                block_start(blocks, i) + blocks[i].len(),
            ) == #[trigger] blocks[i],
    decreases blocks.len(),
{
    if blocks.len() > 0 {
        let rest = blocks.drop_first();
        lemma_concat_blocks_layout(rest);
        let all = concat_blocks(blocks);
        let b0 = blocks[0];
        assert(all == b0 + concat_blocks(rest));
        lemma_block_start_shift(blocks, blocks.len() - 1);
        assert forall|i: int| 0 <= i < blocks.len() implies all.subrange(
            block_start(blocks, i),
            block_start(blocks, i) + blocks[i].len(),
        ) == #[trigger] blocks[i] by {
            if i == 0 {
                assert(all.subrange(0, b0.len() as int) =~= b0);
            } else {
                lemma_block_start_shift(blocks, i - 1);
                assert(blocks[i] == rest[i - 1]);
                let lo = block_start(rest, i - 1);
                let hi = lo + rest[i - 1].len();
                lemma_block_start_mono(rest, i - 1, i - 1);
                lemma_block_start_mono(rest, i, rest.len() as int);
                assert(hi == block_start(rest, i));
                assert(concat_blocks(rest).subrange(lo, hi) == rest[i - 1]);
                assert(all.subrange(b0.len() + lo, b0.len() + hi) =~= concat_blocks(rest).subrange(
                    lo,
                    hi,
                ));
            }
        }
    }
}

proof fn lemma_flat_all_blocks(children: Seq<CsgTree>)
    ensures
        flat_all(children) == concat_blocks(flat_blocks(children)),
    decreases children.len(),
{
    if children.len() > 0 {
        lemma_flat_all_blocks(children.drop_first());
        assert(flat_blocks(children).drop_first() =~= flat_blocks(children.drop_first()));
        assert(flat_blocks(children)[0] == flat(children[0]));
    }
}

proof fn lemma_children_laid_out(root: CsgNodeRepr, children: Seq<CsgTree>)
    ensures
        children_laid_out(seq![root] + flat_all(children), children),
{
    let blocks = flat_blocks(children);
    lemma_flat_all_blocks(children);
    lemma_concat_blocks_layout(blocks);
    let f = seq![root] + flat_all(children);
    assert forall|i: int| 0 <= i < children.len() implies f.subrange(
        1 + nodes_before(children, i),
        1 + nodes_before(children, i) + flat(children[i]).len(),
    ) == #[trigger] flat(children[i]) by {
        assert(blocks[i] == flat(children[i]));
        let lo = block_start(blocks, i);
        let hi = lo + blocks[i].len();
        lemma_block_start_mono(blocks, i, i);
        lemma_block_start_mono(blocks, i + 1, blocks.len() as int);
        assert(hi == block_start(blocks, i + 1));
        assert(concat_blocks(blocks).subrange(lo, hi) == blocks[i]);
        assert(f.subrange(1 + lo, 1 + hi) =~= concat_blocks(blocks).subrange(lo, hi));
    }
}

/// Law: flattening writes a node, then its children in the order they
/// were authored, each as one flattened block. A primitive is one node; a
/// unary operator is followed by its child; a union, intersection or their
/// smooth forms is followed by each child in turn; a difference is
/// followed by its base, then by the part it subtracts, so the GPU reads
/// the base as the first child.
pub proof fn lemma_flatten_layout(t: CsgTree)
    ensures
        flat(t).len() >= 1,
        t is Empty ==> flat(t).len() == 1 && flat(t)[0].opcode == opcodes::EMPTY && flat(t)[0].child_count == 0,
        t matches CsgTree::Sphere(p) ==> flat(t) == seq![p.spec_to_repr(0)],
        t matches CsgTree::Cube(p) ==> flat(t) == seq![p.spec_to_repr(0)],
        t matches CsgTree::Torus(p) ==> flat(t) == seq![p.spec_to_repr(0)],
        t matches CsgTree::CubeFrame(p) ==> flat(t) == seq![p.spec_to_repr(0)],
        t matches CsgTree::Cone(p) ==> flat(t) == seq![p.spec_to_repr(0)],
        t matches CsgTree::Triangle(p) ==> flat(t) == seq![p.spec_to_repr(0)],
        t matches CsgTree::RegularHexagon(p) ==> flat(t) == seq![p.spec_to_repr(0)],
        t matches CsgTree::Capsule(p) ==> flat(t) == seq![p.spec_to_repr(0)],
        t matches CsgTree::Cylinder(p) ==> flat(t) == seq![p.spec_to_repr(0)],
        t matches CsgTree::Ellipse(p) ==> flat(t) == seq![p.spec_to_repr(0)],
        t matches CsgTree::Octahedron(p) ==> flat(t) == seq![p.spec_to_repr(0)],
        t matches CsgTree::Pyramid(p) ==> flat(t) == seq![p.spec_to_repr(0)],
        t matches CsgTree::Round { node, child } ==> flat(t)[0] == node.spec_to_repr(1) && flat(t).drop_first() == flat(*child),
        t matches CsgTree::Extrude { node, child } ==> flat(t)[0] == node.spec_to_repr(1) && flat(t).drop_first() == flat(*child),
        t matches CsgTree::Revolve { node, child } ==> flat(t)[0] == node.spec_to_repr(1) && flat(t).drop_first() == flat(*child),
        t matches CsgTree::PlanarSym { node, child } ==> flat(t)[0] == node.spec_to_repr(1) && flat(t).drop_first() == flat(*child),
        t matches CsgTree::AxialSym { node, child } ==> flat(t)[0] == node.spec_to_repr(1) && flat(t).drop_first() == flat(*child),
        t matches CsgTree::Elongate { node, child } ==> flat(t)[0] == node.spec_to_repr(1) && flat(t).drop_first() == flat(*child),
        t matches CsgTree::Onion { node, child } ==> flat(t)[0] == node.spec_to_repr(1) && flat(t).drop_first() == flat(*child),
        t matches CsgTree::Twist { node, child } ==> flat(t)[0] == node.spec_to_repr(1) && flat(t).drop_first() == flat(*child),
        t matches CsgTree::Bend { node, child } ==> flat(t)[0] == node.spec_to_repr(1) && flat(t).drop_first() == flat(*child),
        t matches CsgTree::Transform { node, child } ==> flat(t)[0] == node.spec_to_repr(1) && flat(t).drop_first() == flat(*child),
        t matches CsgTree::Union { children } ==> flat(t)[0] == ops::Union.spec_to_repr(children@.len() as u32) && children_laid_out(flat(t), children@),
        t matches CsgTree::Intersect { children } ==> flat(t)[0] == ops::Intersect.spec_to_repr(children@.len() as u32) && children_laid_out(flat(t), children@),
        t matches CsgTree::SmoothUnion { node, children } ==> flat(t)[0] == node.spec_to_repr(children@.len() as u32) && children_laid_out(flat(t), children@),
        t matches CsgTree::SmoothIntersect { node, children } ==> flat(t)[0] == node.spec_to_repr(children@.len() as u32) && children_laid_out(flat(t), children@),
        t matches CsgTree::Difference { base, subtract } ==> flat(t)[0] == ops::Difference.spec_to_repr(2) && base_then_subtract(flat(t), *base, *subtract),
        t matches CsgTree::SmoothDifference { node, base, subtract } ==> flat(t)[0] == node.spec_to_repr(2) && base_then_subtract(flat(t), *base, *subtract),
{
    match t {
        CsgTree::Union { children } => lemma_children_laid_out(flat(t)[0], children@),
        CsgTree::Intersect { children } => lemma_children_laid_out(flat(t)[0], children@),
        CsgTree::SmoothUnion { children, .. } => lemma_children_laid_out(flat(t)[0], children@),
        CsgTree::SmoothIntersect { children, .. } => lemma_children_laid_out(flat(t)[0], children@),
        CsgTree::Difference { base, subtract } => {
            let f = flat(t);
            let b = flat(*base);
            assert(f.subrange(1, 1 + b.len() as int) =~= b);
            assert(f.subrange(1 + b.len() as int, f.len() as int) =~= flat(*subtract));
        },
        CsgTree::SmoothDifference { base, subtract, .. } => {
            let f = flat(t);
            let b = flat(*base);
            assert(f.subrange(1, 1 + b.len() as int) =~= b);
            assert(f.subrange(1 + b.len() as int, f.len() as int) =~= flat(*subtract));
        },
        _ => {
            assert(flat(t).drop_first() =~= flat(t).subrange(1, flat(t).len() as int));
        },
    }
}

} // verus!
