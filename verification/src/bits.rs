//! A set of slot indices, one bit per index, kept in a `bit_set::BitSet`.
//!
//! Nothing in this file is proved: each function states what the bit set
//! does, and the allocator's proofs rest on those statements.

use bit_set::BitSet;
use vstd::prelude::*;

verus! {

/// A set of slot indices stored in a `bit_set::BitSet`.
#[verifier::external_body]
#[derive(Debug)]
pub struct IndexSet {
    bits: BitSet,
}

/// The indices that the set holds.
pub uninterp spec fn members(set: IndexSet) -> Set<usize>;

impl IndexSet {
    /// `BitSet::new`: the set it returns holds nothing.
    #[verifier::external_body]
    pub(crate) fn new() -> (set: IndexSet)
        ensures
            members(set) == Set::<usize>::empty(),
    {
        IndexSet { bits: BitSet::new() }
    }

    /// `BitSet::insert`: afterwards the set holds the index as well, and
    /// the result tells whether it was absent before. The bit vector
    /// underneath grows to `index + 1` bits, so the largest `usize` is
    /// left out.
    #[verifier::external_body]
    pub(crate) fn insert(&mut self, index: usize) -> (fresh: bool)
        requires
            index < usize::MAX,
        ensures
            members(*final(self)) == members(*old(self)).insert(index),
            fresh == !members(*old(self)).contains(index),
    {
        self.bits.insert(index)
    }

    /// `BitSet::remove`: afterwards the set no longer holds the index, and
    /// the result tells whether it was present before.
    #[verifier::external_body]
    pub(crate) fn remove(&mut self, index: usize) -> (present: bool)
        ensures
            members(*final(self)) == members(*old(self)).remove(index),
            present == members(*old(self)).contains(index),
    {
        self.bits.remove(index)
    }

    /// `BitSet::contains`: whether the set holds the index.
    #[verifier::external_body]
    pub(crate) fn contains(&self, index: usize) -> (present: bool)
        ensures
            present == members(*self).contains(index),
    {
        self.bits.contains(index)
    }

    /// `BitSet::clone`: the copy holds the same indices.
    #[verifier::external_body]
    pub(crate) fn duplicate(&self) -> (copy: IndexSet)
        ensures
            members(copy) == members(*self),
    {
        IndexSet { bits: self.bits.clone() }
    }
}

} // verus!
