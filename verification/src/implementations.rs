//! Which arena writes out the relation between two linked arenas, and
//! what it writes.

use crate::arenas::Arena;
use crate::ids::Allocator;
use crate::links::{Link, LinkType};
use crate::link_map::edge_map;
use crate::validate::{lemma_safe_world_resolves, lifetime_safe};
use crate::world::{
    arena_at, arena_edges, declared, index_of, law_arena_edges, law_link_table_rows, link_facts,
    link_table, LinkFact, World,
};
use vstd::prelude::*;

verus! {

/// What the code that links an entity of one arena to an entity of
/// another has to do, as plain values.
pub struct ImplementationView {
    pub from: Seq<char>,
    pub to: Seq<char>,
    pub from_allocator: Allocator,
    pub to_allocator: Allocator,
    pub link_type: LinkType,
    pub back_reference: Option<LinkType>,
}

/// What the code that links an entity of the arena `from` to an entity of
/// the arena `to` has to do: store the target with the source under
/// `link_type`, and, where the target refers back, store the source with
/// the target under `back_reference`.
#[derive(Debug)]
pub struct LinkImplementation {
    pub from: String,
    pub to: String,
    pub from_allocator: Allocator,
    pub to_allocator: Allocator,
    pub link_type: LinkType,
    pub back_reference: Option<LinkType>,
}

impl LinkImplementation {
    pub open spec fn view(&self) -> ImplementationView {
        ImplementationView {
            from: self.from@,
            to: self.to@,
            from_allocator: self.from_allocator,
            to_allocator: self.to_allocator,
            link_type: self.link_type,
            back_reference: self.back_reference,
        }
    }
}

/// Whether the arena at position `from` is the one that writes out its
/// relation to the arena at position `to`. An owner writes it out, an
/// owned arena leaves it to its owner. Of two arenas that refer to each
/// other and neither of which owns the other, the one declared later
/// writes it out. In every other case the source does.
pub open spec fn emits(arenas: Seq<Arena>, from: int, to: int) -> bool {
    let source = arenas[from];
    let target = arenas[to];
    if source.ownership@.contains_key(target.name@) {
        true
    } else if target.ownership@.contains_key(source.name@) {
        false
    } else if source.references@.contains_key(target.name@) && target.references@.contains_key(
        source.name@,
    ) {
        from > to
    } else {
        true
    }
}

/// What the arena at `from` writes out for its link of `link_type` to
/// the arena at `to`.
pub open spec fn written(arenas: Seq<Arena>, from: int, to: int, link_type: LinkType) -> ImplementationView {
    let source = arenas[from];
    let target = arenas[to];
    ImplementationView {
        from: source.name@,
        to: target.name@,
        from_allocator: source.allocator,
        to_allocator: target.allocator,
        link_type,
        back_reference: if target.references@.contains_key(source.name@) {
            Some(target.references@[source.name@])
        } else {
            None
        },
    }
}

/// What is written out for a link between two declared arenas, if its
/// source is the one that writes.
pub open spec fn implementation(
    arenas: Seq<Arena>,
    link: (Seq<char>, Seq<char>),
    link_type: LinkType,
) -> Option<ImplementationView> {
    let from = index_of(arenas, link.0);
    let to = index_of(arenas, link.1);
    if emits(arenas, from, to) {
        Some(written(arenas, from, to, link_type))
    } else {
        None
    }
}

/// Both ends of every row are declared arenas.
pub open spec fn rows_resolve(arenas: Seq<Arena>, rows: Seq<LinkFact>) -> bool {
    forall|k: int|
        0 <= k < rows.len() ==> declared(arenas, (#[trigger] rows[k]).from) && declared(
            arenas,
            rows[k].to,
        )
}

/// In a safe world both ends of every row of the link table are declared
/// arenas, so that every row can be written out.
pub proof fn law_safe_world_rows_resolve(arenas: Seq<Arena>)
    requires
        forall|i: int| 0 <= i < arenas.len() ==> (#[trigger] arenas[i]).wf(),
        lifetime_safe(arenas),
    ensures
        rows_resolve(arenas, link_table(arenas)),
{
    let rows = link_table(arenas);
    assert forall|k: int| 0 <= k < rows.len() implies declared(arenas, (#[trigger] rows[k]).from)
        && declared(arenas, rows[k].to) by {
        law_link_table_rows(arenas, k);
        let i = choose|i: int|
            {
                &&& #[trigger] arena_at(arenas, rows[k].from, i)
                &&& edge_map(arena_edges(arenas[i])).contains_key(rows[k].to)
                &&& edge_map(arena_edges(arenas[i]))[rows[k].to] == (rows[k].link_type, rows[k].role)
            };
        law_arena_edges(arenas[i], rows[k].to);
        lemma_safe_world_resolves(arenas, i);
    }
}

/// What is written out for the rows of a link table, in the order of the
/// rows: one implementation for each row whose source is the one that
/// writes.
pub open spec fn implementations(arenas: Seq<Arena>, rows: Seq<LinkFact>) -> Seq<ImplementationView>
    decreases rows.len(),
{
    if rows.len() == 0 {
        Seq::empty()
    } else {
        let row = rows.last();
        let rest = implementations(arenas, rows.drop_last());
        match implementation(arenas, (row.from, row.to), row.link_type) {
            Some(written) => rest.push(written),
            None => rest,
        }
    }
}

/// The views of a list of implementations, in order.
pub open spec fn implementation_views(list: Seq<LinkImplementation>) -> Seq<ImplementationView> {
    list.map_values(|i: LinkImplementation| i@)
}

impl Link {
    /// What the source of this link writes out for it, or nothing where
    /// the writing falls to the other end.
    pub fn get_implementation(&self, world: &World, link_type: &LinkType) -> (written: Option<
        LinkImplementation,
    >)
        requires
            declared(world@.arenas, self@.0),
            declared(world@.arenas, self@.1),
        ensures
            written is Some <==> implementation(world@.arenas, self@, *link_type) is Some,
            written matches Some(w) ==> Some(w@) == implementation(
                world@.arenas,
                self@,
                *link_type,
            ),
    {
        let from = match world.position(self.from.as_str()) {
            Some(i) => i,
            None => unreached(),
        };
        let to = match world.position(self.to.as_str()) {
            Some(i) => i,
            None => unreached(),
        };
        let source = &world.arenas()[from];
        let target = &world.arenas()[to];
        let emits = if source.owns(target) {
            true
        } else if target.owns(source) {
            false
        } else if source.references(target) && target.references(source) {
            from > to
        } else {
            true
        };
        if emits {
            Some(
                LinkImplementation {
                    from: source.name.clone(),
                    to: target.name.clone(),
                    from_allocator: source.allocator,
                    to_allocator: target.allocator,
                    link_type: *link_type,
                    back_reference: target.references.get(source.name.as_str()),
                },
            )
        } else {
            None
        }
    }
}

impl World {
    /// What is written out for the link table, row by row.
    pub fn get_link_implementations(&self) -> (list: Vec<LinkImplementation>)
        requires
            rows_resolve(self@.arenas, self@.links),
        ensures
            implementation_views(list@) == implementations(self@.arenas, self@.links),
    {
        let links = self.links();
        let mut list: Vec<LinkImplementation> = Vec::new();
        let mut k: usize = 0;
        while k < links.len()
            invariant
                k <= links@.len(),
                link_facts(links@) == self@.links,
                rows_resolve(self@.arenas, self@.links),
                implementation_views(list@) == implementations(
                    self@.arenas,
                    self@.links.take(k as int),
                ),
            decreases links@.len() - k,
        {
            let entry = &links[k];
            assert(entry@ == self@.links[k as int]);
            let written = entry.link.get_implementation(self, &entry.link_type);
            proof {
                let next = self@.links.take(k + 1);
                assert(next.drop_last() =~= self@.links.take(k as int));
            }
            match written {
                Some(w) => {
                    list.push(w);
                },
                None => {},
            }
            k += 1;
        }
        assert(self@.links.take(links@.len() as int) =~= self@.links);
        list
    }
}

} // verus!
