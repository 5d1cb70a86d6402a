//! Disjoint sets of pixels.

use vstd::prelude::*;

verus! {

/// Disjoint sets of the numbers below some length, as a forest: each number has a parent, and one
/// that is its own parent stands for its set.
#[derive(Debug, Clone, PartialEq, Eq)]
pub struct UnionFind {
    /// The parent of each number.
    pub parents: Vec<usize>,
}

/// The forest in which each of the numbers below `len` is alone in its set.
pub open spec fn singletons(len: nat) -> Seq<usize> {
    Seq::new(len, |i: int| i as usize)
}

impl UnionFind {
    /// Puts each of the numbers below `len` into a set of its own.
    pub fn new(len: usize) -> (r: Self)
        ensures
            r.parents@ == singletons(len as nat),
            r.parents@.len() == len,
            forall|i: int| 0 <= i < len ==> #[trigger] r.parents@[i] == i,
    {
        let mut parents: Vec<usize> = Vec::with_capacity(len);
        for i in 0..len
            invariant
                parents@ == singletons(i as nat),
        {
            parents.push(i);
            assert(parents@ =~= singletons((i + 1) as nat));
        }
        UnionFind { parents }
    }

    /// Puts each number back into a set of its own.
    pub fn reset(&mut self)
        ensures
            final(self).parents@ == singletons(old(self).parents@.len()),
            final(self).parents@.len() == old(self).parents@.len(),
            forall|i: int|
                0 <= i < final(self).parents@.len() ==> #[trigger] final(self).parents@[i] == i,
    {
        let len = self.parents.len();
        for i in 0..len
            invariant
                len == self.parents@.len(),
                len == old(self).parents@.len(),
                forall|j: int| 0 <= j < i ==> #[trigger] self.parents@[j] == j,
        {
            self.parents[i] = i;
        }
        assert(self.parents@ =~= singletons(len as nat));
    }
}

/// In the forest of singletons each number is its own parent, so no two have the same one.
pub proof fn law_singletons_are_apart(len: nat, i: int, j: int)
    requires
        len <= usize::MAX,
        0 <= i < len,
        0 <= j < len,
    ensures
        singletons(len).len() == len,
        singletons(len)[i] == i,
        singletons(len)[i] == singletons(len)[j] ==> i == j,
{
}

} // verus!
