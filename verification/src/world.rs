//! The world: the arenas of a schema in the order of their declaration,
//! the singleton components, and the table of links derived from the
//! arenas' edges.

use crate::arenas::Arena;
use crate::components::StaticComponent;
use crate::compound_entity::{texts, CompoundEntity, CompoundView};
use crate::link_map::{declare, distinct_targets, edge_at, edge_map, lemma_declare, LinkMap};
use crate::links::{Link, LinkRole, LinkType};
use vstd::prelude::*;

verus! {

/// One row of the link table, as plain values.
pub struct LinkFact {
    pub from: Seq<char>,
    pub to: Seq<char>,
    pub link_type: LinkType,
    pub role: LinkRole,
}

/// One row of the link table: an edge from one arena to another, its
/// multiplicity and its role.
#[derive(Debug)]
pub struct LinkEntry {
    pub link: Link,
    pub link_type: LinkType,
    pub role: LinkRole,
}

impl LinkEntry {
    pub open spec fn view(&self) -> LinkFact {
        LinkFact {
            from: self.link.from@,
            to: self.link.to@,
            link_type: self.link_type,
            role: self.role,
        }
    }
}

impl Clone for LinkEntry {
    fn clone(&self) -> (copy: LinkEntry)
        ensures
            copy@ == self@,
    {
        LinkEntry { link: self.link.clone(), link_type: self.link_type, role: self.role }
    }
}

/// The rows of a table, in order.
pub open spec fn link_facts(entries: Seq<LinkEntry>) -> Seq<LinkFact> {
    entries.map_values(|e: LinkEntry| e@)
}

/// The edges `merged` after declaring each edge of `edges` under `role`,
/// first to last.
pub open spec fn declare_edges(
    merged: Seq<(Seq<char>, (LinkType, LinkRole))>,
    edges: Seq<(Seq<char>, LinkType)>,
    role: LinkRole,
) -> Seq<(Seq<char>, (LinkType, LinkRole))>
    decreases edges.len(),
{
    if edges.len() == 0 {
        merged
    } else {
        declare(
            declare_edges(merged, edges.drop_last(), role),
            edges.last().0,
            (edges.last().1, role),
        )
    }
}

/// The edges that leave an arena, one for each target: its ownership
/// edges are declared first and its references after them, so that a
/// target with both keeps the place of the ownership edge and reads as a
/// reference.
pub open spec fn arena_edges(arena: Arena) -> Seq<(Seq<char>, (LinkType, LinkRole))> {
    declare_edges(
        declare_edges(Seq::empty(), arena.ownership.entries(), LinkRole::Ownership),
        arena.references.entries(),
        LinkRole::Reference,
    )
}

/// The rows that an arena adds to the link table.
pub open spec fn arena_links(arena: Arena) -> Seq<LinkFact> {
    arena_edges(arena).map_values(
        |e: (Seq<char>, (LinkType, LinkRole))|
            LinkFact { from: arena.name@, to: e.0, link_type: e.1.0, role: e.1.1 },
    )
}

/// The link table of a list of arenas: the rows of each arena, in the
/// order of the arenas.
pub open spec fn link_table(arenas: Seq<Arena>) -> Seq<LinkFact>
    decreases arenas.len(),
{
    if arenas.len() == 0 {
        Seq::empty()
    } else {
        link_table(arenas.drop_last()) + arena_links(arenas.last())
    }
}

/// Declaring edges one after the other keeps the targets distinct. The
/// result has an edge for each target that had one before or has one in
/// `edges`; the declared edges read as declared, under `role`, and the
/// others as before.
pub proof fn lemma_declare_edges(
    merged: Seq<(Seq<char>, (LinkType, LinkRole))>,
    edges: Seq<(Seq<char>, LinkType)>,
    role: LinkRole,
)
    requires
        distinct_targets(merged),
        distinct_targets(edges),
    ensures
        distinct_targets(declare_edges(merged, edges, role)),
        forall|t: Seq<char>| #[trigger]
            edge_map(declare_edges(merged, edges, role)).contains_key(t) <==> edge_map(
                merged,
            ).contains_key(t) || edge_map(edges).contains_key(t),
        forall|t: Seq<char>| #[trigger]
            edge_map(edges).contains_key(t) ==> edge_map(declare_edges(merged, edges, role))[t] == (
                edge_map(edges)[t],
                role,
            ),
        forall|t: Seq<char>|
            !edge_map(edges).contains_key(t) && #[trigger] edge_map(merged).contains_key(t)
                ==> edge_map(declare_edges(merged, edges, role))[t] == edge_map(merged)[t],
    decreases edges.len(),
{
    if edges.len() > 0 {
        let rest = edges.drop_last();
        let last = edges.last();
        let at = edges.len() - 1;
        let before = declare_edges(merged, rest, role);
        lemma_declare_edges(merged, rest, role);
        lemma_declare(before, last.0, (last.1, role));
        assert(edge_at(edges, last.0, at));
        assert forall|t: Seq<char>| #[trigger]
            edge_map(edges).contains_key(t) <==> t == last.0 || edge_map(rest).contains_key(
                t,
            ) by {
            if edge_map(edges).contains_key(t) && t != last.0 {
                let i = choose|i: int| edge_at(edges, t, i);
                assert(edge_at(rest, t, i));
            }
            if edge_map(rest).contains_key(t) {
                let i = choose|i: int| edge_at(rest, t, i);
                assert(edge_at(edges, t, i));
            }
        }
    }
}

/// The edges that leave an arena have distinct targets: the targets that
/// the arena owns or refers to. A target that the arena refers to reads
/// as a reference, with the multiplicity of the reference; any other
/// reads as owned.
pub proof fn law_arena_edges(arena: Arena, target: Seq<char>)
    requires
        arena.wf(),
    ensures
        distinct_targets(arena_edges(arena)),
        edge_map(arena_edges(arena)).contains_key(target) <==> arena.ownership@.contains_key(target)
            || arena.references@.contains_key(target),
        arena.references@.contains_key(target) ==> edge_map(arena_edges(arena))[target] == (
            arena.references@[target],
            LinkRole::Reference,
        ),
        arena.ownership@.contains_key(target) && !arena.references@.contains_key(target)
            ==> edge_map(arena_edges(arena))[target] == (
            arena.ownership@[target],
            LinkRole::Ownership,
        ),
{
    let none = Seq::<(Seq<char>, (LinkType, LinkRole))>::empty();
    let owned = declare_edges(none, arena.ownership.entries(), LinkRole::Ownership);
    lemma_declare_edges(none, arena.ownership.entries(), LinkRole::Ownership);
    lemma_declare_edges(owned, arena.references.entries(), LinkRole::Reference);
}

/// Every row of the link table comes from an edge: its source is a
/// declared arena, and that arena owns or refers to its target.
pub proof fn law_link_table_rows(arenas: Seq<Arena>, k: int)
    requires
        forall|i: int| 0 <= i < arenas.len() ==> (#[trigger] arenas[i]).wf(),
        0 <= k < link_table(arenas).len(),
    ensures
        exists|i: int|
            {
                &&& #[trigger] arena_at(arenas, link_table(arenas)[k].from, i)
                &&& edge_map(arena_edges(arenas[i])).contains_key(link_table(arenas)[k].to)
                &&& edge_map(arena_edges(arenas[i]))[link_table(arenas)[k].to] == (
                    link_table(arenas)[k].link_type,
                    link_table(arenas)[k].role,
                )
            },
    decreases arenas.len(),
{
    let rest = arenas.drop_last();
    let last = arenas.last();
    let row = link_table(arenas)[k];
    if k < link_table(rest).len() {
        law_link_table_rows(rest, k);
        let i = choose|i: int|
            {
                &&& #[trigger] arena_at(rest, link_table(rest)[k].from, i)
                &&& edge_map(arena_edges(rest[i])).contains_key(link_table(rest)[k].to)
                &&& edge_map(arena_edges(rest[i]))[link_table(rest)[k].to] == (
                    link_table(rest)[k].link_type,
                    link_table(rest)[k].role,
                )
            };
        assert(arena_at(arenas, row.from, i));
    } else {
        let at = k - link_table(rest).len();
        let edges = arena_edges(last);
        assert(edge_at(edges, edges[at].0, at));
        assert(arena_at(arenas, row.from, arenas.len() - 1));
        law_arena_edges(last, edges[at].0);
        assert((choose|i: int| edge_at(edges, edges[at].0, i)) == at);
    }
}

/// Every edge has its row: for each target that an arena owns or refers
/// to, the link table holds a row from the arena to the target.
pub proof fn law_link_table_has_row(arenas: Seq<Arena>, i: int, target: Seq<char>)
    requires
        0 <= i < arenas.len(),
        edge_map(arena_edges(arenas[i])).contains_key(target),
    ensures
        exists|k: int|
            0 <= k < link_table(arenas).len() && #[trigger] link_table(arenas)[k] == (LinkFact {
                from: arenas[i].name@,
                to: target,
                link_type: edge_map(arena_edges(arenas[i]))[target].0,
                role: edge_map(arena_edges(arenas[i]))[target].1,
            }),
    decreases arenas.len(),
{
    let rest = arenas.drop_last();
    let last = arenas.last();
    if i < arenas.len() - 1 {
        law_link_table_has_row(rest, i, target);
        let k = choose|k: int|
            0 <= k < link_table(rest).len() && #[trigger] link_table(rest)[k] == (LinkFact {
                from: rest[i].name@,
                to: target,
                link_type: edge_map(arena_edges(rest[i]))[target].0,
                role: edge_map(arena_edges(rest[i]))[target].1,
            });
        assert(link_table(arenas)[k] == link_table(rest)[k]);
    } else {
        let edges = arena_edges(last);
        let j = choose|j: int| edge_at(edges, target, j);
        let k = link_table(rest).len() + j;
        assert(link_table(arenas)[k] == arena_links(last)[j]);
    }
}

/// The link table is keyed by the ordered pair of source and target: no
/// two rows join the same source to the same target.
pub proof fn law_link_table_keys_are_distinct(arenas: Seq<Arena>, k: int, l: int)
    requires
        distinct_names(arenas),
        forall|i: int| 0 <= i < arenas.len() ==> (#[trigger] arenas[i]).wf(),
        0 <= k < link_table(arenas).len(),
        0 <= l < link_table(arenas).len(),
        k != l,
    ensures
        link_table(arenas)[k].from != link_table(arenas)[l].from || link_table(arenas)[k].to
            != link_table(arenas)[l].to,
    decreases arenas.len(),
{
    let rest = arenas.drop_last();
    let last = arenas.last();
    let table = link_table(arenas);
    let split = link_table(rest).len();
    if k < split && l < split {
        law_link_table_keys_are_distinct(rest, k, l);
    } else if k >= split && l >= split {
        law_arena_edges(last, table[k].to);
    } else {
        law_link_table_rows(rest, if k < split { k } else { l });
    }
}

/// Declares the edges of `edges` under `role` in `merged`, first to last.
fn merge_edges(merged: &mut LinkMap<(LinkType, LinkRole)>, edges: &LinkMap<LinkType>, role: LinkRole)
    ensures
        final(merged).entries() == declare_edges(old(merged).entries(), edges.entries(), role),
{
    let ghost start = merged.entries();
    let n = edges.len();
    let mut j: usize = 0;
    while j < n
        invariant
            j <= n,
            n == edges.entries().len(),
            merged.entries() == declare_edges(start, edges.entries().take(j as int), role),
        decreases n - j,
    {
        let edge = edges.edge(j);
        merged.insert(edge.target.as_str(), (edge.value, role));
        proof {
            let next = edges.entries().take(j + 1);
            assert(next.drop_last() =~= edges.entries().take(j as int));
        }
        j += 1;
    }
    assert(edges.entries().take(n as int) =~= edges.entries());
}

/// The rows that `arena` adds to the link table, appended to `table`.
fn push_arena_links(table: &mut Vec<LinkEntry>, arena: &Arena)
    ensures
        link_facts(final(table)@) == link_facts(old(table)@) + arena_links(*arena),
{
    let mut merged: LinkMap<(LinkType, LinkRole)> = LinkMap::new();
    merge_edges(&mut merged, &arena.ownership, LinkRole::Ownership);
    merge_edges(&mut merged, &arena.references, LinkRole::Reference);
    let ghost start = link_facts(table@);
    let n = merged.len();
    let mut k: usize = 0;
    while k < n
        invariant
            k <= n,
            n == merged.entries().len(),
            merged.entries() == arena_edges(*arena),
            link_facts(table@) == start + arena_links(*arena).take(k as int),
        decreases n - k,
    {
        let edge = merged.edge(k);
        let entry = LinkEntry {
            link: Link::new(arena.name.as_str(), edge.target.as_str()),
            link_type: edge.value.0,
            role: edge.value.1,
        };
        let ghost before = table@;
        table.push(entry);
        proof {
            assert(link_facts(table@) =~= link_facts(before).push(entry@));
        }
        k += 1;
    }
}

/// Builds the link table of `arenas` from nothing.
pub fn derive_links(arenas: &Vec<Arena>) -> (table: Vec<LinkEntry>)
    ensures
        link_facts(table@) == link_table(arenas@),
{
    let mut table: Vec<LinkEntry> = Vec::new();
    let mut i: usize = 0;
    while i < arenas.len()
        invariant
            i <= arenas@.len(),
            link_facts(table@) == link_table(arenas@.take(i as int)),
        decreases arenas@.len() - i,
    {
        push_arena_links(&mut table, &arenas[i]);
        proof {
            let next = arenas@.take(i + 1);
            assert(next.drop_last() =~= arenas@.take(i as int));
        }
        i += 1;
    }
    assert(arenas@.take(arenas@.len() as int) =~= arenas@);
    table
}

/// The arena at position `i` bears the name.
pub open spec fn arena_at(arenas: Seq<Arena>, name: Seq<char>, i: int) -> bool {
    0 <= i < arenas.len() && arenas[i].name@ == name
}

/// Some arena of the list bears the name.
pub open spec fn declared(arenas: Seq<Arena>, name: Seq<char>) -> bool {
    exists|i: int| arena_at(arenas, name, i)
}

/// The targets of all the edges are declared arenas.
pub open spec fn targets_declared(arenas: Seq<Arena>, edges: Seq<(Seq<char>, LinkType)>) -> bool {
    forall|j: int| 0 <= j < edges.len() ==> declared(arenas, (#[trigger] edges[j]).0)
}

/// The position of the arena that bears the name.
pub open spec fn index_of(arenas: Seq<Arena>, name: Seq<char>) -> int {
    choose|i: int| arena_at(arenas, name, i)
}

/// No two arenas of the list bear the same name.
pub open spec fn distinct_names(arenas: Seq<Arena>) -> bool {
    forall|i: int, j: int|
        0 <= i < arenas.len() && 0 <= j < arenas.len() && i != j ==> (#[trigger] arenas[i]).name@
            != (#[trigger] arenas[j]).name@
}

/// The views of a list of singleton components, in order.
pub open spec fn static_views(components: Seq<StaticComponent>) -> Seq<(Seq<char>, Seq<char>)> {
    components.map_values(|c: StaticComponent| c@)
}

/// The views of a list of compound entities, in order.
pub open spec fn compound_views(entities: Seq<CompoundEntity>) -> Seq<CompoundView> {
    entities.map_values(|e: CompoundEntity| e@)
}

/// What a world holds.
pub struct WorldView {
    /// The paths the rendered module imports.
    pub uses: Seq<Seq<char>>,
    /// The arenas in the order of their declaration.
    pub arenas: Seq<Arena>,
    /// The singleton components: name and type.
    pub components: Seq<(Seq<char>, Seq<char>)>,
    /// The link table.
    pub links: Seq<LinkFact>,
    pub compound_entities: Seq<CompoundView>,
}

/// A schema: arenas with distinct names in the order of their declaration,
/// singleton components, and the link table that the arenas' edges give.
#[derive(Debug)]
pub struct World {
    pub(crate) uses: Vec<String>,
    pub(crate) arenas: Vec<Arena>,
    pub(crate) components: Vec<StaticComponent>,
    pub(crate) links: Vec<LinkEntry>,
    pub(crate) compound_entities: Vec<CompoundEntity>,
}

impl World {
    /// What holds of every world: no two arenas bear the same name, and
    /// the link table is the one that the arenas give.
    #[verifier::type_invariant]
    pub closed spec fn wf(self) -> bool {
        &&& distinct_names(self.arenas@)
        &&& forall|i: int| 0 <= i < self.arenas@.len() ==> (#[trigger] self.arenas@[i]).wf()
        &&& link_facts(self.links@) == link_table(self.arenas@)
    }

    pub closed spec fn view(self) -> WorldView {
        WorldView {
            uses: texts(self.uses@),
            arenas: self.arenas@,
            components: static_views(self.components@),
            links: link_facts(self.links@),
            compound_entities: compound_views(self.compound_entities@),
        }
    }

    /// A world without arenas. It imports the prelude of this library.
    pub fn new() -> (world: World)
        ensures
            world.wf(),
            world@ == (WorldView {
                uses: seq!["generative_ecs::prelude::*"@],
                arenas: Seq::empty(),
                components: Seq::empty(),
                links: Seq::empty(),
                compound_entities: Seq::empty(),
            }),
    {
        let mut uses: Vec<String> = Vec::new();
        uses.push(String::from_str("generative_ecs::prelude::*"));
        let links: Vec<LinkEntry> = Vec::new();
        assert(link_facts(links@) =~= Seq::empty());
        let world = World {
            uses,
            arenas: Vec::new(),
            components: Vec::new(),
            links,
            compound_entities: Vec::new(),
        };
        proof {
            assert(world@.uses =~= seq!["generative_ecs::prelude::*"@]);
            assert(world@.components =~= Seq::empty());
            assert(world@.compound_entities =~= Seq::empty());
        }
        world
    }

    /// Adds a path for the rendered module to import.
    pub fn add_use(self, use_ref: &str) -> (world: World)
        ensures
            world.wf(),
            world@ == (WorldView { uses: self@.uses.push(use_ref@), ..self@ }),
    {
        proof {
            use_type_invariant(&self);
        }
        let World { uses, arenas, components, links, compound_entities } = self;
        let mut uses = uses;
        uses.push(String::from_str(use_ref));
        let world = World { uses, arenas, components, links, compound_entities };
        assert(world@.uses =~= self@.uses.push(use_ref@));
        world
    }

    /// Whether an arena of this name is declared.
    pub fn contains_arena(&self, name: &str) -> (present: bool)
        ensures
            present == declared(self@.arenas, name@),
    {
        self.position(name).is_some()
    }

    /// The position of the arena that bears the name, if one does.
    pub fn position(&self, name: &str) -> (found: Option<usize>)
        ensures
            found matches Some(i) ==> arena_at(self@.arenas, name@, i as int) && i == index_of(
                self@.arenas,
                name@,
            ),
            found is Some <==> declared(self@.arenas, name@),
    {
        proof {
            use_type_invariant(self);
        }
        let key = String::from_str(name);
        let mut i: usize = 0;
        while i < self.arenas.len()
            invariant
                i <= self.arenas@.len(),
                key@ == name@,
                distinct_names(self.arenas@),
                forall|j: int| 0 <= j < i ==> !arena_at(self.arenas@, name@, j),
            decreases self.arenas@.len() - i,
        {
            if self.arenas[i].name == key {
                proof {
                    assert(arena_at(self.arenas@, name@, i as int));
                }
                return Some(i);
            }
            i += 1;
        }
        None
    }

    /// Adds an arena at the end of the declaration order and derives the
    /// link table anew.
    pub fn add_arena(self, arena: Arena) -> (world: World)
        requires
            !declared(self@.arenas, arena.name@),
        ensures
            world.wf(),
            world@ == (WorldView {
                arenas: self@.arenas.push(arena),
                links: link_table(self@.arenas.push(arena)),
                ..self@
            }),
    {
        proof {
            use_type_invariant(&self);
            use_type_invariant(&arena.ownership);
            use_type_invariant(&arena.references);
        }
        let World { uses, arenas, components, links, compound_entities } = self;
        let mut arenas = arenas;
        let ghost before = arenas@;
        arenas.push(arena);
        proof {
            assert forall|i: int, j: int|
                0 <= i < arenas@.len() && 0 <= j < arenas@.len() && i != j implies (
            #[trigger] arenas@[i]).name@ != (#[trigger] arenas@[j]).name@ by {
                if i == before.len() {
                    assert(!arena_at(before, arena.name@, j));
                }
                if j == before.len() {
                    assert(!arena_at(before, arena.name@, i));
                }
            }
        }
        let links = derive_links(&arenas);
        World { uses, arenas, components, links, compound_entities }
    }

    /// Adds a singleton component.
    pub fn add_static_component(self, component: StaticComponent) -> (world: World)
        ensures
            world.wf(),
            world@ == (WorldView { components: self@.components.push(component@), ..self@ }),
    {
        proof {
            use_type_invariant(&self);
        }
        let World { uses, arenas, components, links, compound_entities } = self;
        let mut components = components;
        components.push(component);
        let world = World { uses, arenas, components, links, compound_entities };
        assert(world@.components =~= self@.components.push(component@));
        world
    }

    /// Adds a compound entity.
    pub fn add_compound_entity(self, entity: CompoundEntity) -> (world: World)
        ensures
            world.wf(),
            world@ == (WorldView {
                compound_entities: self@.compound_entities.push(entity@),
                ..self@
            }),
    {
        proof {
            use_type_invariant(&self);
        }
        let World { uses, arenas, components, links, compound_entities } = self;
        let mut compound_entities = compound_entities;
        compound_entities.push(entity);
        let world = World { uses, arenas, components, links, compound_entities };
        assert(world@.compound_entities =~= self@.compound_entities.push(entity@));
        world
    }

    /// The arenas in the order of their declaration.
    pub fn arenas(&self) -> (arenas: &Vec<Arena>)
        ensures
            arenas@ == self@.arenas,
            distinct_names(arenas@),
            forall|i: int| 0 <= i < arenas@.len() ==> (#[trigger] arenas@[i]).wf(),
    {
        proof {
            use_type_invariant(self);
        }
        &self.arenas
    }

    /// The link table as it was derived when the last arena was added.
    pub fn links(&self) -> (links: &Vec<LinkEntry>)
        ensures
            link_facts(links@) == self@.links,
            self@.links == link_table(self@.arenas),
    {
        proof {
            use_type_invariant(self);
        }
        &self.links
    }

    /// The singleton components.
    pub fn components(&self) -> (components: &Vec<StaticComponent>)
        ensures
            static_views(components@) == self@.components,
    {
        &self.components
    }

    /// The paths the rendered module imports.
    pub fn uses(&self) -> (uses: &Vec<String>)
        ensures
            texts(uses@) == self@.uses,
    {
        &self.uses
    }

    /// The compound entities.
    pub fn compound_entities(&self) -> (entities: &Vec<CompoundEntity>)
        ensures
            compound_views(entities@) == self@.compound_entities,
    {
        &self.compound_entities
    }

    /// The arena that bears the name.
    pub fn get_arena(&self, name: &str) -> (arena: &Arena)
        requires
            declared(self@.arenas, name@),
        ensures
            *arena == self@.arenas[index_of(self@.arenas, name@)],
            arena.name@ == name@,
    {
        match self.position(name) {
            Some(i) => &self.arenas[i],
            None => unreached(),
        }
    }

    /// Builds the link table from the arenas, from nothing.
    pub fn get_links(&self) -> (table: Vec<LinkEntry>)
        ensures
            link_facts(table@) == link_table(self@.arenas),
    {
        derive_links(&self.arenas)
    }
}

impl Default for World {
    /// A world with nothing in it, not even an import.
    fn default() -> (world: World)
        ensures
            world.wf(),
            world@ == (WorldView {
                uses: Seq::empty(),
                arenas: Seq::empty(),
                components: Seq::empty(),
                links: Seq::empty(),
                compound_entities: Seq::empty(),
            }),
    {
        let links: Vec<LinkEntry> = Vec::new();
        assert(link_facts(links@) =~= Seq::empty());
        let world = World {
            uses: Vec::new(),
            arenas: Vec::new(),
            components: Vec::new(),
            links,
            compound_entities: Vec::new(),
        };
        proof {
            assert(world@.uses =~= Seq::empty());
            assert(world@.components =~= Seq::empty());
            assert(world@.compound_entities =~= Seq::empty());
        }
        world
    }
}

} // verus!
