//! Several prefix-order CSG trees packed in one contiguous vector.
use vstd::prelude::*;

use crate::csg::repr::CsgNodeRepr;

verus! {

/// `N` CSG trees in prefix notation, stored one after the other.
///
/// The `i`th tree is made of the nodes `trees[offsets[i]..offsets[i + 1]]`,
/// the last one running to the end of `trees`. `offsets[0]` is always 0,
/// except when `N` is 0, in which case the array is empty.
pub struct PackedCsgTrees<T, const N: usize> {
    trees: Vec<(CsgNodeRepr, T)>,
    offsets: [usize; N],
}

/// Offsets that start at 0, never decrease and stay within `len`.
pub open spec fn valid_offsets(offsets: Seq<usize>, len: nat) -> bool {
    &&& offsets.len() > 0 ==> offsets[0] == 0
    &&& forall|i: int, j: int| 0 <= i <= j < offsets.len() ==> offsets[i] <= offsets[j]
    &&& forall|i: int| 0 <= i < offsets.len() ==> offsets[i] <= len
}

impl<T, const N: usize> PackedCsgTrees<T, N> {
    #[verifier::type_invariant]
    spec fn inv(self) -> bool {
        &&& self.offsets@.len() == N
        &&& valid_offsets(self.offsets@, self.trees@.len())
    }

    /// All the nodes, with their payloads.
    pub closed spec fn spec_trees(&self) -> Seq<(CsgNodeRepr, T)> {
        self.trees@
    }

    /// Where each tree starts.
    pub closed spec fn spec_offsets(&self) -> Seq<usize> {
        self.offsets@
    }

    /// Index one past the last node of the `i`th tree.
    pub open spec fn spec_upper_bound(&self, i: int) -> int {
        if i == N - 1 {
            self.spec_trees().len() as int
        } else {
            self.spec_offsets()[i + 1] as int
        }
    }

    /// Packs the given nodes, split at `offsets`; `None` when the offsets do
    /// not start at 0, decrease or point past the nodes.
    pub fn new(trees: Vec<(CsgNodeRepr, T)>, offsets: [usize; N]) -> (packed: Option<Self>)
        ensures
            packed is Some <==> valid_offsets(offsets@, trees@.len()),
            packed matches Some(p) ==> p.spec_trees() == trees@ && p.spec_offsets() == offsets@,
    {
        let mut i: usize = 0;
        let mut ok = N == 0 || offsets[0] == 0;
        while i < N
            invariant
                i <= N,
                offsets@.len() == N,
                ok <==> ((N > 0 ==> offsets@[0] == 0) && (forall|a: int, b: int|
                    0 <= a <= b < i ==> offsets@[a] <= offsets@[b]) && (forall|a: int|
                    0 <= a < i ==> offsets@[a] <= trees@.len())),
            decreases N - i,
        {
            if offsets[i] > trees.len() || (i > 0 && offsets[i - 1] > offsets[i]) {
                ok = false;
            }
            proof {
                if ok {
                    assert forall|a: int, b: int| 0 <= a <= b < i + 1 implies offsets@[a]
                        <= offsets@[b] by {
                        if b == i && a < i {
                            assert(offsets@[a] <= offsets@[i - 1]);
                        }
                    }
                }
            }
            i = i + 1;
        }
        if ok {
            Some(PackedCsgTrees { trees, offsets })
        } else {
            None
        }
    }

    /// The nodes of the `I`th tree.
    pub fn ith<const I: usize>(&self) -> (tree: &[(CsgNodeRepr, T)])
        requires
            I < N,
        ensures
            tree@ == self.spec_trees().subrange(
                self.spec_offsets()[I as int] as int,
                self.spec_upper_bound(I as int),
            ),
    {
        proof {
            use_type_invariant(self);
        }
        let lower_bound = self.offsets[I];
        let upper_bound = if I == N - 1 {
            self.trees.len()
        } else {
            self.offsets[I + 1]
        };
        vstd::slice::slice_subrange(self.trees.as_slice(), lower_bound, upper_bound)
    }
}

} // verus!
