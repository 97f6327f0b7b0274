//! The traits that rendered worlds implement.

use vstd::prelude::*;

verus! {

/// Storage that takes a value for an id.
pub trait Insert<ID, T> {
    fn insert(&mut self, id: &ID, value: T);
}

/// A state that can link an entity of kind `A` to an entity of kind `B`.
pub trait Link<A, B> {
    type IdA;

    type IdB;

    fn link(&mut self, a: &Self::IdA, b: &Self::IdB);
}

} // verus!
