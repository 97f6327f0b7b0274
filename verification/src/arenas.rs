//! Arena declarations: the storage shape of one kind of entity, and the
//! edges that leave it.

use crate::components::{ComponentType, ComponentView, Storage};
use crate::ids::Allocator;
use crate::link_map::LinkMap;
use crate::links::LinkType;
use crate::names::valid_name;
use vstd::prelude::*;

verus! {

/// The text of the allocator type that issues the ids of the arena `name`.
pub open spec fn allocator_type(allocator: Allocator, name: Seq<char>) -> Seq<char> {
    match allocator {
        Allocator::Fixed => "FixedAllocator<"@ + name + ">"@,
        Allocator::Generational => "GenAllocator<"@ + name + ">"@,
    }
}

/// The text of the id type of the arena `name`.
pub open spec fn id_type(allocator: Allocator, name: Seq<char>) -> Seq<char> {
    match allocator {
        Allocator::Fixed => "Id<"@ + name + ">"@,
        Allocator::Generational => "GenId<"@ + name + ">"@,
    }
}

impl Allocator {
    /// The allocator type of `arena`, decided by the kind alone.
    pub fn get_type(self, arena: &Arena) -> (text: String)
        ensures
            text@ == allocator_type(self, arena.name@),
    {
        match self {
            Allocator::Fixed => String::from_str("FixedAllocator<").concat(
                arena.name.as_str(),
            ).concat(">"),
            Allocator::Generational => String::from_str("GenAllocator<").concat(
                arena.name.as_str(),
            ).concat(">"),
        }
    }

    /// The id type of `arena`, decided by the kind alone.
    pub fn get_id_type(self, arena: &Arena) -> (text: String)
        ensures
            text@ == id_type(self, arena.name@),
    {
        match self {
            Allocator::Fixed => String::from_str("Id<").concat(arena.name.as_str()).concat(">"),
            Allocator::Generational => String::from_str("GenId<").concat(
                arena.name.as_str(),
            ).concat(">"),
        }
    }
}

/// The views of a list of components, in order.
pub open spec fn component_views(components: Seq<ComponentType>) -> Seq<ComponentView> {
    components.map_values(|c: ComponentType| c@)
}

/// The field that an edge of `link_type` to the arena `name` puts into the
/// source arena: the target's id for a required edge, the id or nothing for
/// an optional one, and no field at all for an edge to many.
pub open spec fn link_component(
    link_type: LinkType,
    allocator: Allocator,
    name: Seq<char>,
) -> Option<ComponentView> {
    match link_type {
        LinkType::Required => Some(
            ComponentView {
                name,
                data_type: id_type(allocator, name),
                storage: Storage::Linear,
            },
        ),
        LinkType::Optional => Some(
            ComponentView {
                name,
                data_type: id_type(allocator, name),
                storage: Storage::LinearOption,
            },
        ),
        LinkType::Many => None,
    }
}

/// One kind of entity: its name, the identifier space that backs it, its
/// components, and the edges to the arenas it owns and refers to.
#[derive(Debug)]
pub struct Arena {
    pub name: String,
    pub allocator: Allocator,
    pub components: Vec<ComponentType>,
    pub default_components: Vec<ComponentType>,
    pub references: LinkMap<LinkType>,
    pub ownership: LinkMap<LinkType>,
}

impl Arena {
    /// An arena with nothing declared but its name and kind.
    pub open spec fn is_bare(&self, name: Seq<char>, allocator: Allocator) -> bool {
        &&& self.name@ == name
        &&& self.allocator == allocator
        &&& self.components@.len() == 0
        &&& self.default_components@.len() == 0
        &&& self.references.entries().len() == 0
        &&& self.ownership.entries().len() == 0
    }

    /// Each target has one ownership edge at most and one reference at
    /// most. It holds of every arena in memory.
    pub open spec fn wf(&self) -> bool {
        &&& self.ownership.wf()
        &&& self.references.wf()
    }

    /// Every declaration of the two arenas reads the same.
    pub open spec fn same_as(&self, other: &Arena) -> bool {
        &&& self.name@ == other.name@
        &&& self.allocator == other.allocator
        &&& component_views(self.components@) == component_views(other.components@)
        &&& component_views(self.default_components@) == component_views(
            other.default_components@,
        )
        &&& self.references.entries() == other.references.entries()
        &&& self.ownership.entries() == other.ownership.entries()
    }

    /// An arena of permanent entities.
    pub fn fixed(name: &str) -> (arena: Arena)
        requires
            valid_name(name@),
        ensures
            arena.is_bare(name@, Allocator::Fixed),
    {
        Arena {
            name: String::from_str(name),
            allocator: Allocator::Fixed,
            components: Vec::new(),
            default_components: Vec::new(),
            references: LinkMap::new(),
            ownership: LinkMap::new(),
        }
    }

    /// An arena of transient entities.
    pub fn generational(name: &str) -> (arena: Arena)
        requires
            valid_name(name@),
        ensures
            arena.is_bare(name@, Allocator::Generational),
    {
        Arena {
            name: String::from_str(name),
            allocator: Allocator::Generational,
            components: Vec::new(),
            default_components: Vec::new(),
            references: LinkMap::new(),
            ownership: LinkMap::new(),
        }
    }

    /// Appends a component whose value the creator of an entity supplies.
    /// A name that occurs already is appended all the same.
    pub fn add_component(self, component: ComponentType) -> (arena: Arena)
        ensures
            arena.components@ == self.components@.push(component),
            arena.name == self.name,
            arena.allocator == self.allocator,
            arena.default_components == self.default_components,
            arena.references == self.references,
            arena.ownership == self.ownership,
    {
        let mut arena = self;
        arena.components.push(component);
        arena
    }

    /// Appends a component that starts from its default value. A name that
    /// occurs already is appended all the same.
    pub fn add_default_component(self, component: ComponentType) -> (arena: Arena)
        ensures
            arena.default_components@ == self.default_components@.push(component),
            arena.name == self.name,
            arena.allocator == self.allocator,
            arena.components == self.components,
            arena.references == self.references,
            arena.ownership == self.ownership,
    {
        let mut arena = self;
        arena.default_components.push(component);
        arena
    }

    /// Declares a reference to another arena. Declared again for the same
    /// target, the later multiplicity stands.
    pub fn add_reference(&mut self, reference_to: &Arena, link_type: LinkType)
        ensures
            final(self).references@ == old(self).references@.insert(
                reference_to.name@,
                link_type,
            ),
            final(self).references.entries() == crate::link_map::declare(
                old(self).references.entries(),
                reference_to.name@,
                link_type,
            ),
            final(self).name == old(self).name,
            final(self).allocator == old(self).allocator,
            final(self).components == old(self).components,
            final(self).default_components == old(self).default_components,
            final(self).ownership == old(self).ownership,
    {
        self.references.insert(reference_to.name.as_str(), link_type);
    }

    /// Declares ownership of another arena. Declared again for the same
    /// target, the later multiplicity stands.
    pub fn add_ownership(&mut self, owned: &Arena, link_type: LinkType)
        ensures
            final(self).ownership@ == old(self).ownership@.insert(owned.name@, link_type),
            final(self).ownership.entries() == crate::link_map::declare(
                old(self).ownership.entries(),
                owned.name@,
                link_type,
            ),
            final(self).name == old(self).name,
            final(self).allocator == old(self).allocator,
            final(self).components == old(self).components,
            final(self).default_components == old(self).default_components,
            final(self).references == old(self).references,
    {
        self.ownership.insert(owned.name.as_str(), link_type);
    }

    /// Whether this arena declares ownership of `arena`.
    pub fn owns(&self, arena: &Arena) -> (owner: bool)
        ensures
            owner == self.ownership@.contains_key(arena.name@),
    {
        self.ownership.contains_key(arena.name.as_str())
    }

    /// Whether this arena declares a reference to `arena`.
    pub fn references(&self, arena: &Arena) -> (refers: bool)
        ensures
            refers == self.references@.contains_key(arena.name@),
    {
        self.references.contains_key(arena.name.as_str())
    }

    /// The text of the arena's own type: its name.
    pub fn get_arena_type(&self) -> (text: String)
        ensures
            text@ == self.name@,
    {
        self.name.clone()
    }

    /// The text of the type of this arena's ids.
    pub fn get_id_type(&self) -> (text: String)
        ensures
            text@ == id_type(self.allocator, self.name@),
    {
        self.allocator.get_id_type(self)
    }

    /// The field that an edge of `link_type` from this arena to `link_to`
    /// puts into this arena, if it puts one.
    pub fn get_link_component(&self, link_to: &Arena, link_type: &LinkType) -> (field: Option<
        ComponentType,
    >)
        ensures
            field is Some <==> link_component(*link_type, link_to.allocator, link_to.name@) is Some,
            field matches Some(component) ==> Some(component@) == link_component(
                *link_type,
                link_to.allocator,
                link_to.name@,
            ),
    {
        match link_type {
            LinkType::Required => Some(
                ComponentType {
                    name: link_to.name.clone(),
                    data_type: link_to.get_id_type(),
                    storage: Storage::Linear,
                },
            ),
            LinkType::Optional => Some(
                ComponentType {
                    name: link_to.name.clone(),
                    data_type: link_to.get_id_type(),
                    storage: Storage::LinearOption,
                },
            ),
            LinkType::Many => None,
        }
    }
}

/// A copy of a list of components.
fn clone_components(components: &Vec<ComponentType>) -> (copy: Vec<ComponentType>)
    ensures
        component_views(copy@) == component_views(components@),
{
    let mut copy: Vec<ComponentType> = Vec::new();
    let mut i: usize = 0;
    while i < components.len()
        invariant
            i <= components@.len(),
            copy@.len() == i,
            forall|j: int| 0 <= j < i ==> (#[trigger] copy@[j])@ == components@[j]@,
        decreases components@.len() - i,
    {
        copy.push(components[i].clone());
        i += 1;
    }
    copy
}

impl Clone for Arena {
    fn clone(&self) -> (copy: Arena)
        ensures
            copy.same_as(self),
    {
        Arena {
            name: self.name.clone(),
            allocator: self.allocator,
            components: clone_components(&self.components),
            default_components: clone_components(&self.default_components),
            references: self.references.clone(),
            ownership: self.ownership.clone(),
        }
    }
}

} // verus!
