//! Compound entities: one primary arena together with arenas of parts.

use crate::arenas::Arena;
use crate::names::valid_name;
use vstd::prelude::*;

verus! {

/// What a compound entity names.
pub struct CompoundView {
    pub name: Seq<char>,
    pub primary_arena: Seq<char>,
    pub child_arenas: Seq<Seq<char>>,
}

/// The names of a list of arenas, in order.
pub open spec fn arena_names(arenas: Seq<&Arena>) -> Seq<Seq<char>> {
    arenas.map_values(|a: &Arena| a.name@)
}

/// The texts of a list of strings, in order.
pub open spec fn texts(strings: Seq<String>) -> Seq<Seq<char>> {
    strings.map_values(|s: String| s@)
}

/// An entity made of a primary arena and the arenas of its parts, all held
/// by name.
#[derive(Debug)]
pub struct CompoundEntity {
    pub name: String,
    pub primary_arena: String,
    pub child_arenas: Vec<String>,
}

impl CompoundEntity {
    pub open spec fn view(&self) -> CompoundView {
        CompoundView {
            name: self.name@,
            primary_arena: self.primary_arena@,
            child_arenas: texts(self.child_arenas@),
        }
    }

    pub fn new(name: &str, primary_arena: &Arena, child_arenas: Vec<&Arena>) -> (entity:
        CompoundEntity)
        requires
            valid_name(name@),
        ensures
            entity@ == (CompoundView {
                name: name@,
                primary_arena: primary_arena.name@,
                child_arenas: arena_names(child_arenas@),
            }),
    {
        let mut children: Vec<String> = Vec::new();
        let mut i: usize = 0;
        while i < child_arenas.len()
            invariant
                i <= child_arenas@.len(),
                children@.len() == i,
                forall|j: int| 0 <= j < i ==> (#[trigger] children@[j])@ == child_arenas@[j].name@,
            decreases child_arenas@.len() - i,
        {
            children.push(child_arenas[i].name.clone());
            i += 1;
        }
        assert(texts(children@) =~= arena_names(child_arenas@));
        CompoundEntity {
            name: String::from_str(name),
            primary_arena: primary_arena.name.clone(),
            child_arenas: children,
        }
    }
}

impl Clone for CompoundEntity {
    fn clone(&self) -> (copy: CompoundEntity)
        ensures
            copy@ == self@,
    {
        let mut children: Vec<String> = Vec::new();
        let mut i: usize = 0;
        while i < self.child_arenas.len()
            invariant
                i <= self.child_arenas@.len(),
                children@.len() == i,
                forall|j: int| 0 <= j < i ==> (#[trigger] children@[j])@ == self.child_arenas@[j]@,
            decreases self.child_arenas@.len() - i,
        {
            children.push(self.child_arenas[i].clone());
            i += 1;
        }
        assert(texts(children@) =~= texts(self.child_arenas@));
        CompoundEntity {
            name: self.name.clone(),
            primary_arena: self.primary_arena.clone(),
            child_arenas: children,
        }
    }
}

} // verus!
