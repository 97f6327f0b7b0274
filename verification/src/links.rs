//! Edges between arenas: their multiplicity, their role, and the ordered
//! pair of arena names that an edge joins.

use vstd::prelude::*;

verus! {

/// How many targets an edge has.
#[derive(Debug, Clone, Copy, PartialEq, Eq, Hash, Structural)]
pub enum LinkType {
    /// Exactly one target, fixed at creation.
    Required,
    /// No target or one.
    Optional,
    /// Any number of targets; the targets point back, so the source holds
    /// no field for the edge.
    Many,
}

/// What an edge means for the lifetime of its target.
#[derive(Debug, Clone, Copy, PartialEq, Eq, Hash, Structural)]
pub enum LinkRole {
    /// The source owns the target.
    Ownership,
    /// The source refers to the target without owning it.
    Reference,
}

/// An ordered pair of arena names: the edge's source and its target.
#[derive(Debug, PartialEq, Eq, Hash)]
pub struct Link {
    pub from: String,
    pub to: String,
}

impl Link {
    /// The pair of names, source first.
    pub open spec fn view(&self) -> (Seq<char>, Seq<char>) {
        (self.from@, self.to@)
    }

    pub fn new(from: &str, to: &str) -> (link: Link)
        ensures
            link@ == (from@, to@),
    {
        Link { from: String::from_str(from), to: String::from_str(to) }
    }

    /// Whether two links join the same two arenas, in either direction.
    pub fn overlaps(&self, rhs: &Link) -> (overlap: bool)
        ensures
            overlap == (self@ == rhs@ || self@ == (rhs@.1, rhs@.0)),
    {
        (self.from == rhs.from && self.to == rhs.to) || (self.from == rhs.to && self.to
            == rhs.from)
    }
}

impl Clone for Link {
    fn clone(&self) -> (copy: Link)
        ensures
            copy@ == self@,
    {
        Link { from: self.from.clone(), to: self.to.clone() }
    }
}

} // verus!
