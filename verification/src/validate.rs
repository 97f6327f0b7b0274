//! The lifetime-safety rules over the ownership and reference graph of a
//! world, and the validator that enforces them.

use crate::arenas::Arena;
use crate::errors::{SchemaError, SchemaFault};
use crate::ids::Allocator;
use crate::link_map::{Edge, LinkMap};
use crate::links::LinkType;
use crate::world::{declared, index_of, targets_declared, World};
use vstd::prelude::*;

verus! {

/// The three things a schema must not declare.
#[derive(Debug, Clone, Copy, PartialEq, Eq, Hash, Structural)]
pub enum Rule {
    /// A transient arena owns a permanent one: the owned entity would
    /// outlive the owner that is to end it.
    TransientOwnsPermanent,
    /// A permanent arena has a required edge, of ownership or of
    /// reference, to a transient one: the target can vanish, the edge
    /// cannot.
    PermanentRequiresTransient,
    /// A transient arena has a required reference to a transient arena
    /// that does not own it: only an owner is sure to end together with
    /// what refers to it.
    TransientRequiresNonOwner,
}

/// The outcome of a validation, as plain values.
pub open spec fn outcome_view(result: Result<(), SchemaError>) -> Result<(), SchemaFault> {
    match result {
        Ok(()) => Ok(()),
        Err(e) => Err(e@),
    }
}

/// The edges of `arena` that `rule` examines, in the order in which it
/// examines them.
pub open spec fn examined(rule: Rule, arena: Arena) -> Seq<(Seq<char>, LinkType)> {
    match rule {
        Rule::TransientOwnsPermanent => if arena.allocator == Allocator::Generational {
            arena.ownership.entries()
        } else {
            Seq::empty()
        },
        Rule::PermanentRequiresTransient => if arena.allocator == Allocator::Fixed {
            arena.ownership.entries() + arena.references.entries()
        } else {
            Seq::empty()
        },
        Rule::TransientRequiresNonOwner => if arena.allocator == Allocator::Generational {
            arena.references.entries()
        } else {
            Seq::empty()
        },
    }
}

/// Whether `rule` forbids an examined edge of `link_type` from `source`
/// to `target`.
pub open spec fn forbids(rule: Rule, source: Arena, target: Arena, link_type: LinkType) -> bool {
    match rule {
        Rule::TransientOwnsPermanent => target.allocator == Allocator::Fixed,
        Rule::PermanentRequiresTransient => target.allocator == Allocator::Generational
            && link_type == LinkType::Required,
        Rule::TransientRequiresNonOwner => target.allocator == Allocator::Generational
            && link_type == LinkType::Required && !target.ownership@.contains_key(source.name@),
    }
}

/// What `rule` finds wrong with one examined edge of `source`, if
/// anything: a target that is not declared, or an edge that it forbids.
pub open spec fn edge_fault(
    arenas: Seq<Arena>,
    rule: Rule,
    source: Arena,
    edge: (Seq<char>, LinkType),
) -> Option<SchemaFault> {
    if !declared(arenas, edge.0) {
        Some(SchemaFault::Lookup { arena: source.name@, target: edge.0 })
    } else if forbids(rule, source, arenas[index_of(arenas, edge.0)], edge.1) {
        Some(SchemaFault::Validation { rule, arena: source.name@, target: edge.0 })
    } else {
        None
    }
}

/// `rule` examines an edge at position `j` of arena `i`.
pub open spec fn examines(arenas: Seq<Arena>, rule: Rule, i: int, j: int) -> bool {
    0 <= i < arenas.len() && 0 <= j < examined(rule, arenas[i]).len()
}

/// What `rule` finds wrong with the edge at position `j` of arena `i`.
pub open spec fn fault(arenas: Seq<Arena>, rule: Rule, i: int, j: int) -> Option<SchemaFault> {
    edge_fault(arenas, rule, arenas[i], examined(rule, arenas[i])[j])
}

/// `rule` finds nothing wrong in the whole world.
pub open spec fn rule_holds(arenas: Seq<Arena>, rule: Rule) -> bool {
    forall|i: int, j: int| examines(arenas, rule, i, j) ==> fault(arenas, rule, i, j) is None
}

/// `found` is the first thing that `rule` finds wrong, going through the
/// arenas in the order of their declaration and through the edges of each
/// in the order in which the rule examines them.
pub open spec fn first_fault_of(arenas: Seq<Arena>, rule: Rule, found: SchemaFault) -> bool {
    exists|i: int, j: int|
        {
            &&& examines(arenas, rule, i, j)
            &&& #[trigger] fault(arenas, rule, i, j) == Some(found)
            &&& forall|k: int, l: int|
                examines(arenas, rule, k, l) && (k < i || (k == i && l < j)) ==> fault(
                    arenas,
                    rule,
                    k,
                    l,
                ) is None
        }
}

/// The world is safe: none of the three rules finds anything wrong.
pub open spec fn lifetime_safe(arenas: Seq<Arena>) -> bool {
    &&& rule_holds(arenas, Rule::TransientOwnsPermanent)
    &&& rule_holds(arenas, Rule::PermanentRequiresTransient)
    &&& rule_holds(arenas, Rule::TransientRequiresNonOwner)
}

/// `found` is the first thing wrong with the world: the first fault of the
/// first rule that finds one, the rules taken in the order of their
/// declaration.
pub open spec fn first_fault(arenas: Seq<Arena>, found: SchemaFault) -> bool {
    ||| first_fault_of(arenas, Rule::TransientOwnsPermanent, found)
    ||| {
        &&& rule_holds(arenas, Rule::TransientOwnsPermanent)
        &&& first_fault_of(arenas, Rule::PermanentRequiresTransient, found)
    }
    ||| {
        &&& rule_holds(arenas, Rule::TransientOwnsPermanent)
        &&& rule_holds(arenas, Rule::PermanentRequiresTransient)
        &&& first_fault_of(arenas, Rule::TransientRequiresNonOwner, found)
    }
}

/// `outcome` is what validation owes for these arenas: success exactly
/// for a safe world, and otherwise the first thing wrong with it.
pub open spec fn is_verdict(arenas: Seq<Arena>, outcome: Result<(), SchemaFault>) -> bool {
    match outcome {
        Ok(()) => lifetime_safe(arenas),
        Err(found) => first_fault(arenas, found),
    }
}

/// A rule has one first fault at most.
pub proof fn lemma_first_fault_of_is_unique(
    arenas: Seq<Arena>,
    rule: Rule,
    first: SchemaFault,
    second: SchemaFault,
)
    requires
        first_fault_of(arenas, rule, first),
        first_fault_of(arenas, rule, second),
    ensures
        first == second,
{
}

/// A rule that finds a first fault does not hold.
pub proof fn lemma_fault_breaks_rule(arenas: Seq<Arena>, rule: Rule, found: SchemaFault)
    requires
        first_fault_of(arenas, rule, found),
    ensures
        !rule_holds(arenas, rule),
{
}

/// The first fault of a world is the first fault of the first rule that
/// does not hold.
pub proof fn lemma_fault_names_its_rule(arenas: Seq<Arena>, found: SchemaFault)
    requires
        first_fault(arenas, found),
    ensures
        !lifetime_safe(arenas),
        !rule_holds(arenas, Rule::TransientOwnsPermanent) ==> first_fault_of(
            arenas,
            Rule::TransientOwnsPermanent,
            found,
        ),
        rule_holds(arenas, Rule::TransientOwnsPermanent) && !rule_holds(
            arenas,
            Rule::PermanentRequiresTransient,
        ) ==> first_fault_of(arenas, Rule::PermanentRequiresTransient, found),
        rule_holds(arenas, Rule::TransientOwnsPermanent) && rule_holds(
            arenas,
            Rule::PermanentRequiresTransient,
        ) ==> first_fault_of(arenas, Rule::TransientRequiresNonOwner, found),
{
    let one = Rule::TransientOwnsPermanent;
    let two = Rule::PermanentRequiresTransient;
    let three = Rule::TransientRequiresNonOwner;
    if first_fault_of(arenas, one, found) {
        lemma_fault_breaks_rule(arenas, one, found);
    }
    if first_fault_of(arenas, two, found) {
        lemma_fault_breaks_rule(arenas, two, found);
    }
    if first_fault_of(arenas, three, found) {
        lemma_fault_breaks_rule(arenas, three, found);
    }
}

/// Validation is a function of the world: whatever it owes for the same
/// arenas, it owes the same. So validating an unchanged world again gives
/// the same result.
pub proof fn law_verdict_is_unique(
    arenas: Seq<Arena>,
    first: Result<(), SchemaFault>,
    second: Result<(), SchemaFault>,
)
    requires
        is_verdict(arenas, first),
        is_verdict(arenas, second),
    ensures
        first == second,
{
    let one = Rule::TransientOwnsPermanent;
    let two = Rule::PermanentRequiresTransient;
    let three = Rule::TransientRequiresNonOwner;
    if first is Err {
        lemma_fault_names_its_rule(arenas, first->Err_0);
    }
    if second is Err {
        lemma_fault_names_its_rule(arenas, second->Err_0);
    }
    if first is Err && second is Err {
        let f = first->Err_0;
        let g = second->Err_0;
        if !rule_holds(arenas, one) {
            lemma_first_fault_of_is_unique(arenas, one, f, g);
        } else if !rule_holds(arenas, two) {
            lemma_first_fault_of_is_unique(arenas, two, f, g);
        } else {
            lemma_first_fault_of_is_unique(arenas, three, f, g);
        }
    } else if first is Ok && second is Ok {
        assert(first->Ok_0 == second->Ok_0);
    }
}

/// In a safe world the target of every edge is declared.
pub proof fn lemma_safe_world_resolves(arenas: Seq<Arena>, i: int)
    requires
        lifetime_safe(arenas),
        0 <= i < arenas.len(),
    ensures
        targets_declared(arenas, arenas[i].ownership.entries()),
        targets_declared(arenas, arenas[i].references.entries()),
{
    let own = arenas[i].ownership.entries();
    let refs = arenas[i].references.entries();
    let one = Rule::TransientOwnsPermanent;
    let two = Rule::PermanentRequiresTransient;
    let three = Rule::TransientRequiresNonOwner;
    assert forall|j: int| 0 <= j < own.len() implies declared(arenas, (#[trigger] own[j]).0) by {
        if arenas[i].allocator == Allocator::Generational {
            assert(examines(arenas, one, i, j));
        } else {
            assert(examines(arenas, two, i, j));
        }
    }
    assert forall|j: int| 0 <= j < refs.len() implies declared(arenas, (#[trigger] refs[j]).0) by {
        if arenas[i].allocator == Allocator::Generational {
            assert(examines(arenas, three, i, j));
        } else {
            assert(examines(arenas, two, i, own.len() + j));
        }
    }
}

/// `rule` finds nothing wrong with the first `j` edges of `edges`, taken
/// as edges of `source`.
pub open spec fn clean_before(
    arenas: Seq<Arena>,
    rule: Rule,
    source: Arena,
    edges: Seq<(Seq<char>, LinkType)>,
    j: int,
) -> bool {
    forall|l: int| 0 <= l < j ==> edge_fault(arenas, rule, source, #[trigger] edges[l]) is None
}

/// Position `j` holds the first edge of `edges` with which `rule` finds
/// something wrong, and `found` is what it finds.
pub open spec fn first_in_edges(
    arenas: Seq<Arena>,
    rule: Rule,
    source: Arena,
    edges: Seq<(Seq<char>, LinkType)>,
    found: SchemaFault,
    j: int,
) -> bool {
    &&& 0 <= j < edges.len()
    &&& edge_fault(arenas, rule, source, edges[j]) == Some(found)
    &&& clean_before(arenas, rule, source, edges, j)
}

/// Whether `rule` examines the edges of an arena of this kind at all.
fn rule_applies(rule: Rule, allocator: Allocator) -> (applies: bool)
    ensures
        applies == match rule {
            Rule::TransientOwnsPermanent => allocator == Allocator::Generational,
            Rule::PermanentRequiresTransient => allocator == Allocator::Fixed,
            Rule::TransientRequiresNonOwner => allocator == Allocator::Generational,
        },
{
    match rule {
        Rule::TransientOwnsPermanent => allocator == Allocator::Generational,
        Rule::PermanentRequiresTransient => allocator == Allocator::Fixed,
        Rule::TransientRequiresNonOwner => allocator == Allocator::Generational,
    }
}

impl World {
    /// Holds one edge of the arena at `source` against `rule`.
    fn check_edge(&self, rule: Rule, source: usize, edge: &Edge<LinkType>) -> (result: Result<
        (),
        SchemaError,
    >)
        requires
            source < self@.arenas.len(),
        ensures
            result is Ok <==> edge_fault(self@.arenas, rule, self@.arenas[source as int], edge@)
                is None,
            result matches Err(e) ==> edge_fault(
                self@.arenas,
                rule,
                self@.arenas[source as int],
                edge@,
            ) == Some(e@),
    {
        let from = &self.arenas()[source];
        match self.position(edge.target.as_str()) {
            None => Err(
                SchemaError::Lookup { arena: from.name.clone(), target: edge.target.clone() },
            ),
            Some(t) => {
                let to = &self.arenas()[t];
                let forbidden = match rule {
                    Rule::TransientOwnsPermanent => to.allocator == Allocator::Fixed,
                    Rule::PermanentRequiresTransient => to.allocator == Allocator::Generational
                        && edge.value == LinkType::Required,
                    Rule::TransientRequiresNonOwner => to.allocator == Allocator::Generational
                        && edge.value == LinkType::Required && !to.owns(from),
                };
                if forbidden {
                    Err(
                        SchemaError::Validation {
                            rule,
                            arena: from.name.clone(),
                            target: edge.target.clone(),
                        },
                    )
                } else {
                    Ok(())
                }
            },
        }
    }

    /// Holds the edges of one map of the arena at `source` against `rule`,
    /// first to last, and stops at the first fault.
    fn check_edges(&self, rule: Rule, source: usize, edges: &LinkMap<LinkType>) -> (result: Result<
        (),
        SchemaError,
    >)
        requires
            source < self@.arenas.len(),
        ensures
            result is Ok ==> clean_before(
                self@.arenas,
                rule,
                self@.arenas[source as int],
                edges.entries(),
                edges.entries().len() as int,
            ),
            result matches Err(e) ==> exists|j: int|
                first_in_edges(
                    self@.arenas,
                    rule,
                    self@.arenas[source as int],
                    edges.entries(),
                    e@,
                    j,
                ),
    {
        let n = edges.len();
        let mut j: usize = 0;
        while j < n
            invariant
                j <= n,
                n == edges.entries().len(),
                source < self@.arenas.len(),
                clean_before(
                    self@.arenas,
                    rule,
                    self@.arenas[source as int],
                    edges.entries(),
                    j as int,
                ),
            decreases n - j,
        {
            let checked = self.check_edge(rule, source, edges.edge(j));
            if checked.is_err() {
                assert(first_in_edges(
                    self@.arenas,
                    rule,
                    self@.arenas[source as int],
                    edges.entries(),
                    checked->Err_0@,
                    j as int,
                ));
                return checked;
            }
            j += 1;
        }
        Ok(())
    }

    /// Holds the arena at `source` against `rule`, and stops at the first
    /// fault.
    fn check_arena(&self, rule: Rule, source: usize) -> (result: Result<(), SchemaError>)
        requires
            source < self@.arenas.len(),
        ensures
            result is Ok ==> forall|j: int|
                examines(self@.arenas, rule, source as int, j) ==> fault(
                    self@.arenas,
                    rule,
                    source as int,
                    j,
                ) is None,
            result matches Err(e) ==> exists|j: int|
                {
                    &&& examines(self@.arenas, rule, source as int, j)
                    &&& #[trigger] fault(self@.arenas, rule, source as int, j) == Some(e@)
                    &&& forall|l: int|
                        0 <= l < j ==> fault(self@.arenas, rule, source as int, l) is None
                },
    {
        let arena = &self.arenas()[source];
        if !rule_applies(rule, arena.allocator) {
            return Ok(());
        }
        let ghost arenas = self@.arenas;
        let ghost own = arena.ownership.entries();
        let ghost refs = arena.references.entries();
        match rule {
            Rule::TransientOwnsPermanent => {
                let checked = self.check_edges(rule, source, &arena.ownership);
                proof {
                    if checked is Err {
                        let e = checked->Err_0@;
                        let j = choose|j: int| first_in_edges(arenas, rule, *arena, own, e, j);
                        assert(fault(arenas, rule, source as int, j) == Some(e));
                    }
                }
                checked
            },
            Rule::TransientRequiresNonOwner => {
                let checked = self.check_edges(rule, source, &arena.references);
                proof {
                    if checked is Err {
                        let e = checked->Err_0@;
                        let j = choose|j: int| first_in_edges(arenas, rule, *arena, refs, e, j);
                        assert(fault(arenas, rule, source as int, j) == Some(e));
                    }
                }
                checked
            },
            Rule::PermanentRequiresTransient => {
                let owned = self.check_edges(rule, source, &arena.ownership);
                if owned.is_err() {
                    proof {
                        let e = owned->Err_0@;
                        let j = choose|j: int| first_in_edges(arenas, rule, *arena, own, e, j);
                        assert(fault(arenas, rule, source as int, j) == Some(e));
                    }
                    return owned;
                }
                let referred = self.check_edges(rule, source, &arena.references);
                proof {
                    if referred is Err {
                        let e = referred->Err_0@;
                        let j = choose|j: int| first_in_edges(arenas, rule, *arena, refs, e, j);
                        let at = own.len() + j;
                        assert(fault(arenas, rule, source as int, at) == Some(e));
                    }
                }
                referred
            },
        }
    }

    /// Holds the whole world against `rule`, arena by arena in the order
    /// of declaration, and stops at the first fault.
    pub fn check_rule(&self, rule: Rule) -> (result: Result<(), SchemaError>)
        ensures
            result is Ok <==> rule_holds(self@.arenas, rule),
            result matches Err(e) ==> first_fault_of(self@.arenas, rule, e@),
    {
        let n = self.arenas().len();
        let mut i: usize = 0;
        while i < n
            invariant
                i <= n,
                n == self@.arenas.len(),
                forall|k: int, l: int|
                    examines(self@.arenas, rule, k, l) && k < i ==> fault(
                        self@.arenas,
                        rule,
                        k,
                        l,
                    ) is None,
            decreases n - i,
        {
            let checked = self.check_arena(rule, i);
            if checked.is_err() {
                proof {
                    let e = checked->Err_0;
                    lemma_fault_breaks_rule(self@.arenas, rule, e@);
                }
                return checked;
            }
            i += 1;
        }
        Ok(())
    }

    /// No transient arena owns a permanent one.
    pub fn no_transient_owns_permanent(&self) -> (result: Result<(), SchemaError>)
        ensures
            result is Ok <==> rule_holds(self@.arenas, Rule::TransientOwnsPermanent),
            result matches Err(e) ==> first_fault_of(
                self@.arenas,
                Rule::TransientOwnsPermanent,
                e@,
            ),
    {
        self.check_rule(Rule::TransientOwnsPermanent)
    }

    /// No permanent arena has a required edge to a transient one.
    pub fn no_permanent_has_mandatory_link_to_transient(&self) -> (result: Result<
        (),
        SchemaError,
    >)
        ensures
            result is Ok <==> rule_holds(self@.arenas, Rule::PermanentRequiresTransient),
            result matches Err(e) ==> first_fault_of(
                self@.arenas,
                Rule::PermanentRequiresTransient,
                e@,
            ),
    {
        self.check_rule(Rule::PermanentRequiresTransient)
    }

    /// No transient arena has a required reference to a transient arena
    /// that does not own it.
    pub fn no_transient_has_mandatory_reference_to_non_owner_transient(&self) -> (result: Result<
        (),
        SchemaError,
    >)
        ensures
            result is Ok <==> rule_holds(self@.arenas, Rule::TransientRequiresNonOwner),
            result matches Err(e) ==> first_fault_of(
                self@.arenas,
                Rule::TransientRequiresNonOwner,
                e@,
            ),
    {
        self.check_rule(Rule::TransientRequiresNonOwner)
    }

    /// Holds the world against the three rules in turn. It succeeds
    /// exactly for a safe world, and otherwise reports the first fault of
    /// the first rule that finds one.
    pub fn validate(&self) -> (result: Result<(), SchemaError>)
        ensures
            is_verdict(self@.arenas, outcome_view(result)),
            result is Ok <==> lifetime_safe(self@.arenas),
    {
        let first = self.no_transient_owns_permanent();
        if first.is_err() {
            return first;
        }
        let second = self.no_permanent_has_mandatory_link_to_transient();
        if second.is_err() {
            return second;
        }
        self.no_transient_has_mandatory_reference_to_non_owner_transient()
    }
}

} // verus!
