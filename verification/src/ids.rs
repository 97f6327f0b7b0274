//! Identifier value types: permanent ids, transient ids and generations.

use std::cmp::Ordering;
use std::marker::PhantomData;
use vstd::prelude::*;

verus! {

/// The identifier space that backs an arena.
#[derive(Debug, Clone, Copy, PartialEq, Eq, Hash, Structural)]
pub enum Allocator {
    /// Permanent indices, issued once and never reclaimed.
    Fixed,
    /// Recyclable indices, each stamped with a generation.
    Generational,
}

/// A positive counter that stamps each use of a slot.
#[derive(Debug, Clone, Copy, PartialEq, Eq, PartialOrd, Ord, Hash, Structural)]
pub struct Generation {
    pub(crate) value: u32,
}

impl Generation {
    #[verifier::type_invariant]
    pub open(crate) spec fn positive(self) -> bool {
        self.value >= 1
    }

    /// The counter as a number.
    pub open(crate) spec fn view(self) -> nat {
        self.value as nat
    }

    /// The generation that follows this one.
    pub fn next(self) -> (r: Self)
        requires
            self@ < u32::MAX,
        ensures
            r@ == self@ + 1,
    {
        proof {
            use_type_invariant(&self);
        }
        Generation { value: self.value + 1 }
    }

    /// The counter's value, never zero.
    pub fn value(self) -> (v: u32)
        ensures
            v == self@,
            v >= 1,
    {
        proof {
            use_type_invariant(&self);
        }
        self.value
    }
}

impl Default for Generation {
    /// The generation under which every slot is first issued.
    fn default() -> (r: Self)
        ensures
            r@ == 1,
    {
        Generation { value: 1 }
    }
}

/// A permanent identifier: a plain index into the storage of one kind `T`.
/// Ids are equal, and ordered, as their indices are.
#[derive(Debug, Hash, Ord)]
pub struct Id<T> {
    pub index: usize,
    pub(crate) marker: PhantomData<T>,
}

impl<T> Id<T> {
    /// The index this id stands for.
    pub open(crate) spec fn view(&self) -> nat {
        self.index as nat
    }

    pub fn new(index: usize) -> (id: Self)
        ensures
            id@ == index,
    {
        Id { index, marker: PhantomData }
    }
}

impl<T> Clone for Id<T> {
    fn clone(&self) -> (r: Self)
        ensures
            r == *self,
    {
        Id { index: self.index, marker: PhantomData }
    }
}

impl<T> Copy for Id<T> {

}

impl<T> PartialEq for Id<T> {
    fn eq(&self, other: &Self) -> (r: bool) {
        self.index == other.index
    }
}

impl<T> vstd::std_specs::cmp::PartialEqSpecImpl for Id<T> {
    open spec fn obeys_eq_spec() -> bool {
        true
    }

    open spec fn eq_spec(&self, other: &Self) -> bool {
        self@ == other@
    }
}

impl<T> Eq for Id<T> {

}

impl<T> PartialOrd for Id<T> {
    fn partial_cmp(&self, other: &Self) -> (r: Option<Ordering>) {
        self.index.partial_cmp(&other.index)
    }
}

impl<T> vstd::std_specs::cmp::PartialOrdSpecImpl for Id<T> {
    open spec fn obeys_partial_cmp_spec() -> bool {
        true
    }

    open spec fn partial_cmp_spec(&self, other: &Self) -> Option<Ordering> {
        if self@ < other@ {
            Some(Ordering::Less)
        } else if self@ == other@ {
            Some(Ordering::Equal)
        } else {
            Some(Ordering::Greater)
        }
    }
}

/// What a transient identifier says: which slot, and under which generation
/// the slot was issued.
pub struct Handle {
    pub index: nat,
    pub generation: nat,
}

/// A transient identifier: an index and the generation it was issued under.
///
/// Two transient ids are equal when index and generation both agree. Their
/// order looks at the index alone, so two ids of one slot compare as equal
/// in order even when `==` tells them apart.
#[derive(Debug, Hash)]
pub struct GenId<T> {
    pub id: Id<T>,
    pub gen: Generation,
}

impl<T> GenId<T> {
    /// The slot and generation this id names.
    pub open(crate) spec fn view(&self) -> Handle {
        Handle { index: self.id@, generation: self.gen@ }
    }

    pub fn new(index: usize, gen: Generation) -> (id: Self)
        ensures
            id@ == (Handle { index: index as nat, generation: gen@ }),
    {
        GenId { id: Id::new(index), gen }
    }
}

impl<T> Clone for GenId<T> {
    fn clone(&self) -> (r: Self)
        ensures
            r == *self,
    {
        GenId { id: self.id, gen: self.gen }
    }
}

impl<T> Copy for GenId<T> {

}

impl<T> PartialEq for GenId<T> {
    fn eq(&self, other: &Self) -> (r: bool) {
        self.id == other.id && self.gen == other.gen
    }
}

impl<T> vstd::std_specs::cmp::PartialEqSpecImpl for GenId<T> {
    open spec fn obeys_eq_spec() -> bool {
        true
    }

    open spec fn eq_spec(&self, other: &Self) -> bool {
        self@ == other@
    }
}

impl<T> Eq for GenId<T> {

}

impl<T> PartialOrd for GenId<T> {
    fn partial_cmp(&self, other: &Self) -> (r: Option<Ordering>) {
        self.id.partial_cmp(&other.id)
    }
}

impl<T> vstd::std_specs::cmp::PartialOrdSpecImpl for GenId<T> {
    open spec fn obeys_partial_cmp_spec() -> bool {
        true
    }

    open spec fn partial_cmp_spec(&self, other: &Self) -> Option<Ordering> {
        if self@.index < other@.index {
            Some(Ordering::Less)
        } else if self@.index == other@.index {
            Some(Ordering::Equal)
        } else {
            Some(Ordering::Greater)
        }
    }
}

/// A transient identifier as the generational allocator hands it out.
#[derive(Debug)]
pub struct Valid<T> {
    pub id: GenId<T>,
}

impl<T> Valid<T> {
    /// The slot and generation this handle names.
    pub open(crate) spec fn view(&self) -> Handle {
        self.id@
    }

    pub fn new(id: GenId<T>) -> (valid: Self)
        ensures
            valid@ == id@,
            valid.id == id,
    {
        Valid { id }
    }

    /// The slot this handle points at.
    pub fn index(&self) -> (i: usize)
        ensures
            i == self@.index,
    {
        self.id.id.index
    }
}

} // verus!
