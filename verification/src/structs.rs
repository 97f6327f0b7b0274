//! The structs that a world renders to, as plain values: their names,
//! derives and fields. Names stand as they were declared; how a name is
//! cased in the rendered text is left to whoever writes the text.

use crate::arenas::{allocator_type, component_views, link_component, Arena};
use crate::components::{
    component_data_type, row_data_type, ComponentType, ComponentView, StaticComponent,
};
use crate::link_map::LinkMap;
use crate::links::LinkType;
use crate::world::{index_of, static_views, targets_declared, World};
use vstd::prelude::*;

verus! {

/// Who may read a field.
#[derive(Debug, Clone, Copy, PartialEq, Eq, Hash, Structural)]
pub enum Visibility {
    Pub,
    Private,
}

/// A field of a struct, as plain values.
pub struct FieldView {
    pub visibility: Visibility,
    pub name: Seq<char>,
    pub field_type: Seq<char>,
}

/// A field of a struct: its visibility, its name and the text of its type.
#[derive(Debug)]
pub struct Field {
    pub visibility: Visibility,
    pub name: String,
    pub field_type: String,
}

impl Field {
    pub open spec fn view(&self) -> FieldView {
        FieldView { visibility: self.visibility, name: self.name@, field_type: self.field_type@ }
    }
}

/// The views of a list of fields, in order.
pub open spec fn field_views(fields: Seq<Field>) -> Seq<FieldView> {
    fields.map_values(|f: Field| f@)
}

/// A struct, as plain values.
pub struct StructView {
    pub typ: Seq<char>,
    pub derives: Seq<Seq<char>>,
    pub fields: Seq<FieldView>,
}

/// A struct: the name of its type, the traits it derives and its fields.
#[derive(Debug)]
pub struct Struct {
    pub typ: String,
    pub derives: Vec<String>,
    pub fields: Vec<Field>,
}

impl Struct {
    pub open spec fn view(&self) -> StructView {
        StructView {
            typ: self.typ@,
            derives: crate::compound_entity::texts(self.derives@),
            fields: field_views(self.fields@),
        }
    }
}

/// The derives of a struct that holds state.
pub open spec fn state_derives() -> Seq<Seq<char>> {
    seq!["Debug"@, "Default"@, "Clone"@]
}

/// The derives of a row of new values.
pub open spec fn row_derives() -> Seq<Seq<char>> {
    seq!["Debug"@]
}

fn make_state_derives() -> (derives: Vec<String>)
    ensures
        crate::compound_entity::texts(derives@) == state_derives(),
{
    let mut derives: Vec<String> = Vec::new();
    derives.push(String::from_str("Debug"));
    derives.push(String::from_str("Default"));
    derives.push(String::from_str("Clone"));
    derives
}

fn make_row_derives() -> (derives: Vec<String>)
    ensures
        crate::compound_entity::texts(derives@) == row_derives(),
{
    let mut derives: Vec<String> = Vec::new();
    derives.push(String::from_str("Debug"));
    derives
}

/// The field that holds a component in its arena.
pub open spec fn arena_field(component: ComponentView) -> FieldView {
    FieldView {
        visibility: Visibility::Pub,
        name: component.name,
        field_type: component_data_type(component.storage, component.data_type),
    }
}

/// The field that a row of new values has for a component.
pub open spec fn data_field(component: ComponentView) -> FieldView {
    FieldView {
        visibility: Visibility::Private,
        name: component.name,
        field_type: row_data_type(component.storage, component.data_type),
    }
}

impl ComponentType {
    /// The field that holds this component in its arena.
    pub fn get_arena_field(&self) -> (field: Field)
        ensures
            field@ == arena_field(self@),
    {
        Field {
            visibility: Visibility::Pub,
            name: self.name.clone(),
            field_type: self.storage.get_component_data_type(self.data_type.as_str()),
        }
    }

    /// The field that a row of new values has for this component.
    pub fn get_data_field(&self) -> (field: Field)
        ensures
            field@ == data_field(self@),
    {
        Field {
            visibility: Visibility::Private,
            name: self.name.clone(),
            field_type: self.storage.get_row_data_type(self.data_type.as_str()),
        }
    }
}

impl StaticComponent {
    /// The field that holds this singleton in the state.
    pub fn get_field(&self) -> (field: Field)
        ensures
            field@ == (FieldView {
                visibility: Visibility::Pub,
                name: self@.0,
                field_type: self@.1,
            }),
    {
        Field {
            visibility: Visibility::Pub,
            name: self.name.clone(),
            field_type: self.data_type.clone(),
        }
    }
}

/// The fields that the edges of `edges` put into their source: one for
/// each edge that is not an edge to many, in the order of the edges. The
/// targets are looked up in `arenas`.
pub open spec fn link_fields(arenas: Seq<Arena>, edges: Seq<(Seq<char>, LinkType)>) -> Seq<FieldView>
    decreases edges.len(),
{
    if edges.len() == 0 {
        Seq::empty()
    } else {
        let rest = link_fields(arenas, edges.drop_last());
        let edge = edges.last();
        let target = arenas[index_of(arenas, edge.0)];
        match link_component(edge.1, target.allocator, target.name@) {
            Some(component) => rest.push(arena_field(component)),
            None => rest,
        }
    }
}

/// The struct of an arena: a field for each declared component, then one
/// for each default component, then one for each edge that puts a field
/// into its source, ownership before reference.
pub open spec fn arena_struct(arenas: Seq<Arena>, arena: Arena) -> StructView {
    StructView {
        typ: arena.name@,
        derives: state_derives(),
        fields: component_views(arena.components@).map_values(|c: ComponentView| arena_field(c))
            + component_views(arena.default_components@).map_values(
            |c: ComponentView| arena_field(c),
        ) + link_fields(arenas, arena.ownership.entries()) + link_fields(
            arenas,
            arena.references.entries(),
        ),
    }
}

/// The struct of a row of new values for an arena: a field for each
/// declared component.
pub open spec fn data_row(arena: Arena) -> StructView {
    StructView {
        typ: arena.name@ + "Row"@,
        derives: row_derives(),
        fields: component_views(arena.components@).map_values(|c: ComponentView| data_field(c)),
    }
}

/// The field that holds an arena's allocator.
pub open spec fn allocator_field(arena: Arena) -> FieldView {
    FieldView {
        visibility: Visibility::Pub,
        name: arena.name@,
        field_type: allocator_type(arena.allocator, arena.name@),
    }
}

/// The field that holds an arena in the state.
pub open spec fn state_field(arena: Arena) -> FieldView {
    FieldView { visibility: Visibility::Private, name: arena.name@, field_type: arena.name@ }
}

/// Appends the arena fields of `components` to `fields`.
fn push_arena_fields(fields: &mut Vec<Field>, components: &Vec<ComponentType>)
    ensures
        field_views(final(fields)@) == field_views(old(fields)@) + component_views(
            components@,
        ).map_values(|c: ComponentView| arena_field(c)),
{
    let ghost start = field_views(fields@);
    let ghost added = component_views(components@).map_values(|c: ComponentView| arena_field(c));
    let mut i: usize = 0;
    while i < components.len()
        invariant
            i <= components@.len(),
            added == component_views(components@).map_values(|c: ComponentView| arena_field(c)),
            field_views(fields@) == start + added.take(i as int),
        decreases components@.len() - i,
    {
        let field = components[i].get_arena_field();
        let ghost before = fields@;
        fields.push(field);
        proof {
            assert(field_views(fields@) =~= field_views(before).push(field@));
        }
        i += 1;
    }
}

impl World {
    /// Appends the fields that the edges of `edges` put into their source.
    fn push_link_fields(&self, fields: &mut Vec<Field>, source: &Arena, edges: &LinkMap<LinkType>)
        requires
            targets_declared(self@.arenas, edges.entries()),
        ensures
            field_views(final(fields)@) == field_views(old(fields)@) + link_fields(
                self@.arenas,
                edges.entries(),
            ),
    {
        let ghost start = field_views(fields@);
        let n = edges.len();
        let mut j: usize = 0;
        while j < n
            invariant
                j <= n,
                n == edges.entries().len(),
                targets_declared(self@.arenas, edges.entries()),
                field_views(fields@) == start + link_fields(
                    self@.arenas,
                    edges.entries().take(j as int),
                ),
            decreases n - j,
        {
            let edge = edges.edge(j);
            let target = self.get_arena(edge.target.as_str());
            let ghost before = fields@;
            proof {
                let next = edges.entries().take(j + 1);
                assert(next.drop_last() =~= edges.entries().take(j as int));
            }
            match source.get_link_component(target, &edge.value) {
                Some(component) => {
                    let field = component.get_arena_field();
                    fields.push(field);
                    assert(field_views(fields@) =~= field_views(before).push(field@));
                },
                None => {},
            }
            j += 1;
        }
        assert(edges.entries().take(n as int) =~= edges.entries());
    }

    /// The struct that holds the allocators: a field for each arena.
    pub fn get_allocators(&self) -> (allocators: Struct)
        ensures
            allocators@ == (StructView {
                typ: "Allocators"@,
                derives: state_derives(),
                fields: self@.arenas.map_values(|a: Arena| allocator_field(a)),
            }),
    {
        let arenas = self.arenas();
        let ghost wanted = self@.arenas.map_values(|a: Arena| allocator_field(a));
        let mut fields: Vec<Field> = Vec::new();
        let mut i: usize = 0;
        while i < arenas.len()
            invariant
                i <= arenas@.len(),
                arenas@ == self@.arenas,
                wanted == self@.arenas.map_values(|a: Arena| allocator_field(a)),
                field_views(fields@) == wanted.take(i as int),
            decreases arenas@.len() - i,
        {
            let field = arenas[i].get_allocator_field();
            fields.push(field);
            proof {
                assert(wanted.take(i + 1) =~= wanted.take(i as int).push(field@));
            }
            i += 1;
        }
        assert(wanted.take(arenas@.len() as int) =~= wanted);
        Struct { typ: String::from_str("Allocators"), derives: make_state_derives(), fields }
    }

    /// The struct that holds the state: a field for each singleton
    /// component, then one for each arena.
    pub fn get_state(&self) -> (state: Struct)
        ensures
            state@ == (StructView {
                typ: "State"@,
                derives: state_derives(),
                fields: self@.components.map_values(
                    |c: (Seq<char>, Seq<char>)|
                        FieldView { visibility: Visibility::Pub, name: c.0, field_type: c.1 },
                ) + self@.arenas.map_values(|a: Arena| state_field(a)),
            }),
    {
        let components = self.components();
        let arenas = self.arenas();
        let ghost statics = self@.components.map_values(
            |c: (Seq<char>, Seq<char>)|
                FieldView { visibility: Visibility::Pub, name: c.0, field_type: c.1 },
        );
        let ghost states = self@.arenas.map_values(|a: Arena| state_field(a));
        let mut fields: Vec<Field> = Vec::new();
        let mut i: usize = 0;
        while i < components.len()
            invariant
                i <= components@.len(),
                static_views(components@) == self@.components,
                statics == self@.components.map_values(
                    |c: (Seq<char>, Seq<char>)|
                        FieldView { visibility: Visibility::Pub, name: c.0, field_type: c.1 },
                ),
                field_views(fields@) == statics.take(i as int),
            decreases components@.len() - i,
        {
            let field = components[i].get_field();
            fields.push(field);
            proof {
                assert(statics.take(i + 1) =~= statics.take(i as int).push(field@));
            }
            i += 1;
        }
        let mut k: usize = 0;
        while k < arenas.len()
            invariant
                k <= arenas@.len(),
                arenas@ == self@.arenas,
                states == self@.arenas.map_values(|a: Arena| state_field(a)),
                field_views(fields@) == statics + states.take(k as int),
            decreases arenas@.len() - k,
        {
            let field = arenas[k].get_state_field();
            let ghost before = fields@;
            fields.push(field);
            proof {
                assert(field_views(fields@) =~= field_views(before).push(field@));
            }
            k += 1;
        }
        assert(states.take(arenas@.len() as int) =~= states);
        Struct { typ: String::from_str("State"), derives: make_state_derives(), fields }
    }
}

impl Arena {
    /// The field that holds this arena's allocator.
    pub fn get_allocator_field(&self) -> (field: Field)
        ensures
            field@ == allocator_field(*self),
    {
        Field {
            visibility: Visibility::Pub,
            name: self.name.clone(),
            field_type: self.allocator.get_type(self),
        }
    }

    /// The field that holds this arena in the state.
    pub fn get_state_field(&self) -> (field: Field)
        ensures
            field@ == state_field(*self),
    {
        Field {
            visibility: Visibility::Private,
            name: self.name.clone(),
            field_type: self.name.clone(),
        }
    }

    /// The struct of this arena in `world`.
    pub fn get_struct(&self, world: &World) -> (shape: Struct)
        requires
            targets_declared(world@.arenas, self.ownership.entries()),
            targets_declared(world@.arenas, self.references.entries()),
        ensures
            shape@ == arena_struct(world@.arenas, *self),
    {
        let mut fields: Vec<Field> = Vec::new();
        push_arena_fields(&mut fields, &self.components);
        push_arena_fields(&mut fields, &self.default_components);
        world.push_link_fields(&mut fields, self, &self.ownership);
        world.push_link_fields(&mut fields, self, &self.references);
        let shape = Struct { typ: self.name.clone(), derives: make_state_derives(), fields };
        shape
    }

    /// The struct of a row of new values for this arena.
    pub fn get_data_row(&self) -> (row: Struct)
        ensures
            row@ == data_row(*self),
    {
        let ghost wanted = component_views(self.components@).map_values(
            |c: ComponentView| data_field(c),
        );
        let mut fields: Vec<Field> = Vec::new();
        let mut i: usize = 0;
        while i < self.components.len()
            invariant
                i <= self.components@.len(),
                wanted == component_views(self.components@).map_values(
                    |c: ComponentView| data_field(c),
                ),
                field_views(fields@) == wanted.take(i as int),
            decreases self.components@.len() - i,
        {
            let field = self.components[i].get_data_field();
            fields.push(field);
            proof {
                assert(wanted.take(i + 1) =~= wanted.take(i as int).push(field@));
            }
            i += 1;
        }
        assert(wanted.take(self.components@.len() as int) =~= wanted);
        Struct {
            typ: self.name.clone().concat("Row"),
            derives: make_row_derives(),
            fields,
        }
    }
}

} // verus!
