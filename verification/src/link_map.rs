//! The edges that leave one arena, keyed by the name of their target.

use vstd::prelude::*;

verus! {

/// One edge: the name of the target arena and what is declared of the
/// edge.
#[derive(Debug)]
pub struct Edge<V> {
    pub target: String,
    pub value: V,
}

impl<V> Edge<V> {
    /// The target's name and what is declared of the edge.
    pub open spec fn view(&self) -> (Seq<char>, V) {
        (self.target@, self.value)
    }
}

/// Position `i` of `edges` holds an edge to `target`.
pub open spec fn edge_at<V>(edges: Seq<(Seq<char>, V)>, target: Seq<char>, i: int) -> bool {
    0 <= i < edges.len() && edges[i].0 == target
}

/// No two edges of the sequence have the same target.
pub open spec fn distinct_targets<V>(edges: Seq<(Seq<char>, V)>) -> bool {
    forall|i: int, j: int|
        0 <= i < edges.len() && 0 <= j < edges.len() && i != j ==> (#[trigger] edges[i]).0 != (
        #[trigger] edges[j]).0
}

/// The edges as a map from target to value.
pub open spec fn edge_map<V>(edges: Seq<(Seq<char>, V)>) -> Map<Seq<char>, V> {
    Map::new(
        |target: Seq<char>| exists|i: int| edge_at(edges, target, i),
        |target: Seq<char>| edges[choose|i: int| edge_at(edges, target, i)].1,
    )
}

/// The edges after declaring an edge to `target`: the value is
/// replaced where the target has an edge already, and the edge goes to the
/// end where it has none.
pub open spec fn declare<V>(edges: Seq<(Seq<char>, V)>, target: Seq<char>, value: V) -> Seq<
    (Seq<char>, V),
> {
    if exists|i: int| edge_at(edges, target, i) {
        edges.update(choose|i: int| edge_at(edges, target, i), (target, value))
    } else {
        edges.push((target, value))
    }
}

/// Declaring an edge keeps the targets distinct, and on the map it is an
/// insertion.
pub proof fn lemma_declare<V>(edges: Seq<(Seq<char>, V)>, target: Seq<char>, value: V)
    requires
        distinct_targets(edges),
    ensures
        distinct_targets(declare(edges, target, value)),
        edge_map(declare(edges, target, value)) == edge_map(edges).insert(target, value),
{
    let after = declare(edges, target, value);
    let at = if exists|i: int| edge_at(edges, target, i) {
        choose|i: int| edge_at(edges, target, i)
    } else {
        edges.len() as int
    };
    assert(edge_at(after, target, at));
    assert forall|i: int| 0 <= i < after.len() && i != at implies (#[trigger] after[i]).0
        != target by {
        if edges[i].0 == target {
            assert(edge_at(edges, target, i));
        }
    }
    assert forall|key: Seq<char>| #[trigger]
        edge_map(after).contains_key(key) <==> edge_map(edges).insert(
            target,
            value,
        ).contains_key(key) by {
        if edge_map(after).contains_key(key) && key != target {
            let i = choose|i: int| edge_at(after, key, i);
            assert(edge_at(edges, key, i));
        }
        if edge_map(edges).contains_key(key) && key != target {
            let i = choose|i: int| edge_at(edges, key, i);
            assert(edge_at(after, key, i));
        }
    }
}

/// A map from target names to values that remembers the order in
/// which the targets were first declared. Each target has one edge at
/// most: declaring it again replaces the value.
#[derive(Debug)]
pub struct LinkMap<V> {
    edges: Vec<Edge<V>>,
}

impl<V> LinkMap<V> {
    /// No two edges have the same target. It holds of every map in memory.
    #[verifier::type_invariant]
    pub open spec fn wf(self) -> bool {
        distinct_targets(self.entries())
    }

    /// The edges in the order of their first declaration.
    pub closed spec fn entries(self) -> Seq<(Seq<char>, V)> {
        Seq::new(self.edges@.len(), |i: int| self.edges@[i]@)
    }

    /// The edges as a map from target to value.
    pub open spec fn view(self) -> Map<Seq<char>, V> {
        edge_map(self.entries())
    }

    pub fn new() -> (map: LinkMap<V>)
        ensures
            map.entries() == Seq::<(Seq<char>, V)>::empty(),
            map@ == Map::<Seq<char>, V>::empty(),
    {
        let map = LinkMap { edges: Vec::new() };
        map
    }

    /// Declares an edge to `target`. A target that has an edge already
    /// keeps its place and takes the new value.
    pub fn insert(&mut self, target: &str, value: V)
        ensures
            final(self).entries() == declare(old(self).entries(), target@, value),
            final(self)@ == old(self)@.insert(target@, value),
    {
        proof {
            use_type_invariant(&*self);
            lemma_declare(self.entries(), target@, value);
        }
        let ghost before = self.entries();
        let found = self.position(target);
        let edge = Edge { target: String::from_str(target), value };
        let mut edges: Vec<Edge<V>> = Vec::new();
        std::mem::swap(&mut edges, &mut self.edges);
        match found {
            Some(i) => {
                edges[i] = edge;
            },
            None => {
                edges.push(edge);
            },
        }
        assert(Seq::new(edges@.len(), |i: int| edges@[i]@) =~= declare(before, target@, value));
        self.edges = edges;
    }

    /// The number of edges.
    pub fn len(&self) -> (n: usize)
        ensures
            n == self.entries().len(),
    {
        self.edges.len()
    }

    /// The edge at position `i` in the order of declaration.
    pub fn edge(&self, i: usize) -> (edge: &Edge<V>)
        requires
            i < self.entries().len(),
        ensures
            edge@ == self.entries()[i as int],
            distinct_targets(self.entries()),
            self@.contains_key(edge@.0),
            self@[edge@.0] == edge@.1,
    {
        proof {
            use_type_invariant(self);
            assert(edge_at(self.entries(), self.entries()[i as int].0, i as int));
        }
        &self.edges[i]
    }

    /// The position of the edge to `target`, if there is one.
    pub fn position(&self, target: &str) -> (found: Option<usize>)
        ensures
            found matches Some(i) ==> edge_at(self.entries(), target@, i as int),
            found is None ==> forall|i: int| !edge_at(self.entries(), target@, i),
            found is Some <==> self@.contains_key(target@),
    {
        let key = String::from_str(target);
        let mut i: usize = 0;
        while i < self.edges.len()
            invariant
                i <= self.edges@.len(),
                key@ == target@,
                forall|j: int| 0 <= j < i ==> !edge_at(self.entries(), target@, j),
            decreases self.edges@.len() - i,
        {
            if self.edges[i].target == key {
                assert(edge_at(self.entries(), target@, i as int));
                return Some(i);
            }
            i += 1;
        }
        None
    }

    /// Whether there is an edge to `target`.
    pub fn contains_key(&self, target: &str) -> (present: bool)
        ensures
            present == self@.contains_key(target@),
    {
        self.position(target).is_some()
    }
}

impl<V: Copy> LinkMap<V> {
    /// The value of the edge to `target`, if there is one.
    pub fn get(&self, target: &str) -> (found: Option<V>)
        ensures
            found == (if self@.contains_key(target@) {
                Some(self@[target@])
            } else {
                None
            }),
    {
        match self.position(target) {
            Some(i) => {
                proof {
                    use_type_invariant(self);
                }
                Some(self.edges[i].value)
            },
            None => None,
        }
    }
}

impl<V: Copy> Clone for LinkMap<V> {
    fn clone(&self) -> (copy: LinkMap<V>)
        ensures
            copy.entries() == self.entries(),
    {
        proof {
            use_type_invariant(self);
        }
        let mut edges: Vec<Edge<V>> = Vec::new();
        let mut i: usize = 0;
        while i < self.edges.len()
            invariant
                i <= self.edges@.len(),
                edges@.len() == i,
                forall|j: int| 0 <= j < i ==> (#[trigger] edges@[j])@ == self.edges@[j]@,
            decreases self.edges@.len() - i,
        {
            edges.push(Edge { target: self.edges[i].target.clone(), value: self.edges[i].value });
            i += 1;
        }
        assert(Seq::new(edges@.len(), |i: int| edges@[i]@) =~= self.entries());
        LinkMap { edges }
    }
}

} // verus!
