//! Prefix-order trees stored in a flat slice.
//!
//! Each node is followed by the encodings of its `child_count` children,
//! left to right. Reading stops at the end of the slice: a child that would
//! start past the end counts as zero nodes.
use vstd::prelude::*;

use crate::csg::repr::CsgNodeRepr;

verus! {

/// Number of nodes spanned by the tree that starts at the head of `s`.
pub open spec fn subtree_len(s: Seq<CsgNodeRepr>) -> nat
    decreases s.len(), 0nat,
{
    if s.len() == 0 {
        0
    } else {
        1 + forest_len(s.drop_first(), s[0].child_count as nat)
    }
}

/// Number of nodes spanned by `k` trees written one after the other at the
/// head of `s`.
pub open spec fn forest_len(s: Seq<CsgNodeRepr>, k: nat) -> nat
    decreases s.len(), k + 1,
{
    if k == 0 || s.len() == 0 {
        0
    } else {
        let c = subtree_len(s);
        if c >= s.len() {
            c
        } else {
            c + forest_len(s.skip(c as int), (k - 1) as nat)
        }
    }
}

/// The nodes of a slice of `(node, payload)` pairs.
pub open spec fn nodes_of<T>(s: Seq<(CsgNodeRepr, T)>) -> Seq<CsgNodeRepr> {
    s.map_values(|p: (CsgNodeRepr, T)| p.0)
}

/// A tree never spans more nodes than there are, and a non-empty slice
/// holds at least its root.
pub proof fn lemma_subtree_len_bounds(s: Seq<CsgNodeRepr>)
    ensures
        subtree_len(s) <= s.len(),
        s.len() > 0 ==> subtree_len(s) >= 1,
    decreases s.len(), 0nat,
{
    if s.len() > 0 {
        lemma_forest_len_bounds(s.drop_first(), s[0].child_count as nat);
    }
}

/// A list of trees never spans more nodes than there are.
pub proof fn lemma_forest_len_bounds(s: Seq<CsgNodeRepr>, k: nat)
    ensures
        forest_len(s, k) <= s.len(),
    decreases s.len(), k + 1,
{
    if k != 0 && s.len() != 0 {
        lemma_subtree_len_bounds(s);
        let c = subtree_len(s);
        if c < s.len() {
            lemma_forest_len_bounds(s.skip(c as int), (k - 1) as nat);
        }
    }
}

/// Index one past the last node of the tree that starts at `start`.
fn subtree_end<T>(nodes: &[(CsgNodeRepr, T)], start: usize) -> (end: usize)
    requires
        start <= nodes@.len(),
    ensures
        end == start + subtree_len(nodes_of(nodes@).skip(start as int)),
        end <= nodes@.len(),
    decreases nodes@.len() - start, 0nat,
{
    let ghost s = nodes_of(nodes@).skip(start as int);
    proof {
        lemma_subtree_len_bounds(s);
    }
    if start == nodes.len() {
        return start;
    }
    let child_count = nodes[start].0.child_count;
    proof {
        assert(s.drop_first() =~= nodes_of(nodes@).skip(start + 1));
    }
    forest_end(nodes, start + 1, child_count)
}

/// Index one past the last node of `k` trees written from `start` on.
fn forest_end<T>(nodes: &[(CsgNodeRepr, T)], start: usize, k: u32) -> (end: usize)
    requires
        start <= nodes@.len(),
    ensures
        end == start + forest_len(nodes_of(nodes@).skip(start as int), k as nat),
        end <= nodes@.len(),
    decreases nodes@.len() - start, k + 1,
{
    let ghost s = nodes_of(nodes@).skip(start as int);
    proof {
        lemma_forest_len_bounds(s, k as nat);
    }
    if k == 0 || start == nodes.len() {
        return start;
    }
    let first_end = subtree_end(nodes, start);
    proof {
        lemma_subtree_len_bounds(s);
    }
    if first_end >= nodes.len() {
        first_end
    } else {
        proof {
            assert(s.skip(first_end - start) =~= nodes_of(nodes@).skip(first_end as int));
        }
        forest_end(nodes, first_end, k - 1)
    }
}

/// Number of nodes of the tree stored at the head of `tree`.
fn node_count<T>(tree: &[(CsgNodeRepr, T)]) -> (count: usize)
    ensures
        count == subtree_len(nodes_of(tree@)),
        count <= tree@.len(),
{
    proof {
        assert(nodes_of(tree@).skip(0) =~= nodes_of(tree@));
    }
    subtree_end(tree, 0)
}

/// Whether the slice holds exactly one complete tree.
fn validate<T>(tree: &[(CsgNodeRepr, T)]) -> (valid: bool)
    ensures
        valid == (subtree_len(nodes_of(tree@)) == tree@.len()),
{
    node_count(tree) == tree.len()
}

/// A CSG tree stored in prefix notation.
pub trait CsgTree {
    /// The stored nodes, in order.
    spec fn spec_nodes(&self) -> Seq<CsgNodeRepr>;

    /// Number of nodes of the tree stored at the head.
    fn node_count(&self) -> (count: usize)
        ensures
            count == subtree_len(self.spec_nodes()),
    ;

    /// Whether exactly one complete tree is stored.
    fn validate(&self) -> (valid: bool)
        ensures
            valid == (subtree_len(self.spec_nodes()) == self.spec_nodes().len()),
    ;
}

impl<'tree, T> CsgTree for &'tree [(CsgNodeRepr, T)] {
    open spec fn spec_nodes(&self) -> Seq<CsgNodeRepr> {
        nodes_of(self@)
    }

    fn node_count(&self) -> (count: usize) {
        node_count(*self)
    }

    fn validate(&self) -> (valid: bool) {
        validate(*self)
    }
}

} // verus!
