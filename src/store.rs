use vstd::prelude::*;

use crate::edge::Edge;
use crate::error::Error;
use crate::graph::{has_default_content, is_hyphenated_uuid, summary_of, Graph, GraphInput, GraphSummary};
use crate::node::Node;

verus! {

/// No two graphs of `s` share an identifier.
pub open spec fn unique_ids(s: Seq<Graph>) -> bool {
    forall|i: int, j: int|
        0 <= i < s.len() && 0 <= j < s.len() && #[trigger] s[i].uuid@ == #[trigger] s[j].uuid@ ==> i == j
}

/// Some graph of `s` has identifier `id`.
pub open spec fn has_id(s: Seq<Graph>, id: Seq<char>) -> bool {
    exists|i: int| 0 <= i < s.len() && #[trigger] s[i].uuid@ == id
}

/// The graph of `s` with identifier `id`, if there is one.
pub open spec fn lookup(s: Seq<Graph>, id: Seq<char>) -> Option<Graph> {
    if has_id(s, id) {
        Some(s[choose|i: int| 0 <= i < s.len() && #[trigger] s[i].uuid@ == id])
    } else {
        None
    }
}

/// The graph of `s` with identifier `id` if `owner` owns it; absent both
/// when there is none and when it belongs to someone else.
pub open spec fn owner_lookup(s: Seq<Graph>, id: Seq<char>, owner: Seq<char>) -> Option<Graph> {
    match lookup(s, id) {
        Some(g) => if g.owner@ == owner {
            Some(g)
        } else {
            None
        },
        None => None,
    }
}

/// The graph that the store keeps for `input`, stamped at `now`.
pub open spec fn stamped(input: GraphInput, now: String) -> Graph {
    Graph {
        uuid: input.uuid,
        name: input.name,
        description: input.description,
        owner: input.owner,
        nodes: input.nodes,
        edges: input.edges,
        start_node: input.start_node,
        end_node: input.end_node,
        created_at: now,
        updated_at: now,
    }
}

/// `g` with its node and edge collections replaced, updated at `now`.
pub open spec fn with_content(g: Graph, nodes: Vec<Node>, edges: Vec<Edge>, now: String) -> Graph {
    Graph { nodes: nodes, edges: edges, updated_at: now, ..g }
}

/// `s` after the graph with identifier `id` had its content replaced.
pub open spec fn apply_update(
    s: Seq<Graph>,
    id: Seq<char>,
    nodes: Vec<Node>,
    edges: Vec<Edge>,
    now: String,
) -> Seq<Graph> {
    s.map_values(
        |g: Graph|
            if g.uuid@ == id {
                with_content(g, nodes, edges, now)
            } else {
                g
            },
    )
}

/// `s` without the graph with identifier `id`.
pub open spec fn apply_delete(s: Seq<Graph>, id: Seq<char>) -> Seq<Graph> {
    s.filter(|g: Graph| g.uuid@ != id)
}

/// The listing entries of the graphs of `s` that `owner` owns, in order.
pub open spec fn summaries(s: Seq<Graph>, owner: Seq<char>) -> Seq<GraphSummary> {
    s.filter(|g: Graph| g.owner@ == owner).map_values(|g: Graph| summary_of(g))
}

/// `g` is what creating a graph for `owner` under `id` at `now` stores.
pub open spec fn is_created_graph(
    g: Graph,
    id: Seq<char>,
    owner: Seq<char>,
    name: Seq<char>,
    description: Seq<char>,
    now: String,
) -> bool {
    &&& g.uuid@ == id
    &&& g.owner@ == owner
    &&& g.name@ == name
    &&& g.description@ == description
    &&& has_default_content(g.nodes@, g.edges@, g.start_node@, g.end_node@)
    &&& g.created_at == now
    &&& g.updated_at == now
}

/// In-memory graph store: the persisted graphs, one per identifier.
pub struct GraphStore {
    graphs: Vec<Graph>,
}

impl View for GraphStore {
    type V = Seq<Graph>;

    closed spec fn view(&self) -> Seq<Graph> {
        self.graphs@
    }
}

proof fn lemma_delete_absent(s: Seq<Graph>, id: Seq<char>)
    requires
        forall|k: int| 0 <= k < s.len() ==> (#[trigger] s[k]).uuid@ != id,
    ensures
        apply_delete(s, id) == s,
    decreases s.len(),
{
    reveal(Seq::filter);
    if s.len() > 0 {
        lemma_delete_absent(s.drop_last(), id);
        assert(s.drop_last().push(s.last()) =~= s);
    }
}

proof fn lemma_delete_at(s: Seq<Graph>, i: int, id: Seq<char>)
    requires
        0 <= i < s.len(),
        s[i].uuid@ == id,
        forall|k: int| 0 <= k < s.len() && k != i ==> (#[trigger] s[k]).uuid@ != id,
    ensures
        apply_delete(s, id) == s.remove(i),
    decreases s.len(),
{
    reveal(Seq::filter);
    if i == s.len() - 1 {
        lemma_delete_absent(s.drop_last(), id);
        assert(s.remove(i) =~= s.drop_last());
    } else {
        lemma_delete_at(s.drop_last(), i, id);
        assert(s.drop_last().remove(i).push(s.last()) =~= s.remove(i));
    }
}

proof fn lemma_summaries_push(s: Seq<Graph>, x: Graph, owner: Seq<char>)
    ensures
        summaries(s.push(x), owner) == if x.owner@ == owner {
            summaries(s, owner).push(summary_of(x))
        } else {
            summaries(s, owner)
        },
{
    reveal(Seq::filter);
    assert(s.push(x).drop_last() =~= s);
    let f = s.filter(|g: Graph| g.owner@ == owner);
    if x.owner@ == owner {
        assert(f.push(x).map_values(|g: Graph| summary_of(g)) =~= f.map_values(|g: Graph| summary_of(g)).push(
            summary_of(x),
        ));
    }
}

impl GraphStore {
    /// The store's invariant: identifiers are unique.
    pub open spec fn wf(&self) -> bool {
        unique_ids(self@)
    }

    /// An empty store.
    pub fn new() -> (r: GraphStore)
        ensures
            r@ == Seq::<Graph>::empty(),
            r.wf(),
    {
        GraphStore { graphs: Vec::new() }
    }

    fn position_of(&self, id: &str) -> (r: Option<usize>)
        ensures
            match r {
                Some(i) => i < self@.len() && self@[i as int].uuid@ == id@,
                None => !has_id(self@, id@),
            },
    {
        let mut i: usize = 0;
        while i < self.graphs.len()
            invariant
                i <= self.graphs@.len(),
                forall|k: int| 0 <= k < i ==> self.graphs@[k].uuid@ != id@,
            decreases self.graphs@.len() - i,
        {
            if crate::text::str_eq(self.graphs[i].uuid.as_str(), id) {
                return Some(i);
            }
            i = i + 1;
        }
        None
    }
}

/// With unique identifiers, `lookup` finds the graph at index `i`.
proof fn lemma_lookup_at(s: Seq<Graph>, i: int)
    requires
        unique_ids(s),
        0 <= i < s.len(),
    ensures
        lookup(s, s[i].uuid@) == Some(s[i]),
{
    let id = s[i].uuid@;
    assert(has_id(s, id));
    let j = choose|j: int| 0 <= j < s.len() && #[trigger] s[j].uuid@ == id;
    assert(s[j].uuid@ == s[i].uuid@);
}

/// Stores a new graph stamped at `now`. Fails, leaving the store as it was,
/// exactly when the identifier is already taken.
pub fn insert_graph(store: &mut GraphStore, input: GraphInput, now: String) -> (r: Result<String, Error>)
    requires
        old(store).wf(),
    ensures
        final(store).wf(),
        match r {
            Ok(id) => {
                &&& !has_id(old(store)@, input.uuid@)
                &&& id@ == input.uuid@
                &&& final(store)@ == old(store)@.push(stamped(input, now))
            },
            Err(e) => {
                &&& has_id(old(store)@, input.uuid@)
                &&& e == Error::GraphCreationError
                &&& final(store)@ == old(store)@
            },
        },
{
    if store.position_of(input.uuid.as_str()).is_some() {
        return Err(Error::GraphCreationError);
    }
    let id = input.uuid.clone();
    let g = Graph {
        uuid: input.uuid,
        name: input.name,
        description: input.description,
        owner: input.owner,
        nodes: input.nodes,
        edges: input.edges,
        start_node: input.start_node,
        end_node: input.end_node,
        created_at: now.clone(),
        updated_at: now,
    };
    let ghost before = store.graphs@;
    store.graphs.push(g);
    proof {
        assert forall|i: int, j: int|
            0 <= i < store.graphs@.len() && 0 <= j < store.graphs@.len()
                && #[trigger] store.graphs@[i].uuid@ == #[trigger] store.graphs@[j].uuid@ implies i == j by {
            if i < before.len() && j < before.len() {
                assert(before[i] == store.graphs@[i] && before[j] == store.graphs@[j]);
            } else if i < before.len() {
                assert(before[i].uuid@ == id@);
            } else if j < before.len() {
                assert(before[j].uuid@ == id@);
            }
        }
    }
    Ok(id)
}

/// Builds a new graph for `owner` with a freshly generated identifier and
/// stores it stamped at `now`; returns the identifier. The store refuses the
/// graph, and is left as it was, if the generated identifier is taken.
pub fn default_with_owner(
    store: &mut GraphStore,
    owner: &str,
    name: &str,
    description: &str,
    now: String,
) -> (r: Result<String, Error>)
    requires
        old(store).wf(),
    ensures
        final(store).wf(),
        match r {
            Ok(id) => {
                &&& !has_id(old(store)@, id@)
                &&& is_hyphenated_uuid(id@)
                &&& final(store)@.len() == old(store)@.len() + 1
                &&& final(store)@.drop_last() == old(store)@
                &&& is_created_graph(final(store)@.last(), id@, owner@, name@, description@, now)
            },
            Err(e) => {
                &&& e == Error::GraphCreationError
                &&& final(store)@ == old(store)@
                &&& exists|id: Seq<char>| is_hyphenated_uuid(id) && has_id(old(store)@, id)
            },
        },
{
    let input = GraphInput::default_with_owner(owner, name, description);
    let ghost id = input.uuid@;
    let r = insert_graph(store, input, now);
    proof {
        if r is Err {
            assert(is_hyphenated_uuid(id) && has_id(old(store)@, id));
        }
        if r is Ok {
            assert(final(store)@.drop_last() =~= old(store)@);
        }
    }
    r
}

/// Replaces the node and edge collections of the graph with identifier `id`,
/// stamping it at `now`; no graph changes if none has that identifier.
/// Ownership is not checked here.
pub fn update_graph_by_id(
    store: &mut GraphStore,
    id: &str,
    nodes: Vec<Node>,
    edges: Vec<Edge>,
    now: String,
)
    requires
        old(store).wf(),
    ensures
        final(store).wf(),
        final(store)@ == apply_update(old(store)@, id@, nodes, edges, now),
{
    let ghost before = store.graphs@;
    match store.position_of(id) {
        Some(i) => {
            let mut g = store.graphs.remove(i);
            g.nodes = nodes;
            g.edges = edges;
            g.updated_at = now;
            store.graphs.insert(i, g);
            proof {
                assert forall|k: int| 0 <= k < before.len() && k != i implies before[k].uuid@ != id@ by {
                    assert(before[i as int].uuid@ == id@);
                }
                assert(store.graphs@ =~= apply_update(before, id@, nodes, edges, now));
            }
        },
        None => {
            proof {
                assert(store.graphs@ =~= apply_update(before, id@, nodes, edges, now));
            }
        },
    }
}

/// The graph with identifier `id`, whoever owns it.
pub fn get_graph_by_id<'a>(store: &'a GraphStore, id: &str) -> (r: Option<&'a Graph>)
    requires
        store.wf(),
    ensures
        match r {
            Some(g) => lookup(store@, id@) == Some(*g),
            None => lookup(store@, id@) is None,
        },
{
    match store.position_of(id) {
        Some(i) => {
            proof { lemma_lookup_at(store.graphs@, i as int); }
            Some(&store.graphs[i])
        },
        None => None,
    }
}

/// The graph with identifier `id` if `owner` owns it; absent otherwise, so
/// that a caller cannot tell another owner's graph from a missing one.
pub fn get_owner_graph_by_id<'a>(store: &'a GraphStore, id: &str, owner: &str) -> (r: Option<&'a Graph>)
    requires
        store.wf(),
    ensures
        match r {
            Some(g) => owner_lookup(store@, id@, owner@) == Some(*g),
            None => owner_lookup(store@, id@, owner@) is None,
        },
{
    match get_graph_by_id(store, id) {
        Some(g) => {
            if crate::text::str_eq(g.owner.as_str(), owner) {
                Some(g)
            } else {
                None
            }
        },
        None => None,
    }
}

/// Identifier, name and description of each graph that `owner` owns, in
/// the order of the store.
pub fn get_graphs_by_owner(store: &GraphStore, owner: &str) -> (r: Vec<GraphSummary>)
    ensures
        r@ == summaries(store@, owner@),
{
    let ghost s = store.graphs@;
    let mut out: Vec<GraphSummary> = Vec::new();
    let mut i: usize = 0;
    while i < store.graphs.len()
        invariant
            s == store.graphs@,
            i <= s.len(),
            out@ == summaries(s.take(i as int), owner@),
        decreases s.len() - i,
    {
        let g = &store.graphs[i];
        proof {
            assert(s.take(i + 1) =~= s.take(i as int).push(s[i as int]));
            lemma_summaries_push(s.take(i as int), s[i as int], owner@);
        }
        if crate::text::str_eq(g.owner.as_str(), owner) {
            out.push(
                GraphSummary {
                    uuid: g.uuid.clone(),
                    name: g.name.clone(),
                    description: g.description.clone(),
                },
            );
            proof {
                assert(out@ =~= summaries(s.take(i + 1), owner@));
            }
        }
        i = i + 1;
    }
    proof {
        assert(s.take(s.len() as int) =~= s);
    }
    out
}

/// Removes the graph with identifier `id`. Removing an absent graph is no
/// failure: the store is left as it was.
pub fn delete_graph_by_id(store: &mut GraphStore, id: &str)
    requires
        old(store).wf(),
    ensures
        final(store).wf(),
        final(store)@ == apply_delete(old(store)@, id@),
{
    let ghost before = store.graphs@;
    match store.position_of(id) {
        Some(i) => {
            store.graphs.remove(i);
            proof {
                assert forall|k: int| 0 <= k < before.len() && k != i implies (#[trigger] before[k]).uuid@ != id@ by {
                    assert(before[i as int].uuid@ == id@);
                }
                lemma_delete_at(before, i as int, id@);
                assert forall|a: int, b: int|
                    0 <= a < store.graphs@.len() && 0 <= b < store.graphs@.len()
                        && #[trigger] store.graphs@[a].uuid@ == #[trigger] store.graphs@[b].uuid@ implies a == b by {
                    let a0 = if a < i { a } else { a + 1 };
                    let b0 = if b < i { b } else { b + 1 };
                    assert(store.graphs@[a] == before[a0] && store.graphs@[b] == before[b0]);
                }
            }
        },
        None => {
            proof {
                lemma_delete_absent(before, id@);
            }
        },
    }
}

proof fn lemma_deleted_lacks_id(s: Seq<Graph>, id: Seq<char>)
    ensures
        forall|k: int| 0 <= k < apply_delete(s, id).len() ==> (#[trigger] apply_delete(s, id)[k]).uuid@ != id,
    decreases s.len(),
{
    reveal(Seq::filter);
    if s.len() > 0 {
        lemma_deleted_lacks_id(s.drop_last(), id);
    }
}

/// A graph just created for `owner` is what the owner-scoped lookup finds
/// under its identifier, and it holds exactly two nodes, `start` and `end`,
/// and no edge.
pub proof fn lemma_created_graph_found_by_owner(
    s: Seq<Graph>,
    id: Seq<char>,
    owner: Seq<char>,
    name: Seq<char>,
    description: Seq<char>,
    now: String,
)
    requires
        unique_ids(s),
        s.len() > 0,
        is_created_graph(s.last(), id, owner, name, description, now),
    ensures
        owner_lookup(s, id, owner) == Some(s.last()),
        s.last().nodes@.len() == 2,
        s.last().nodes@[0].id@ == "start"@,
        s.last().nodes@[1].id@ == "end"@,
        s.last().edges@.len() == 0,
{
    lemma_lookup_at(s, s.len() - 1);
}

/// A graph that belongs to one owner is absent from the lookup of any other
/// owner.
pub proof fn lemma_other_owner_sees_nothing(s: Seq<Graph>, id: Seq<char>, other: Seq<char>)
    requires
        unique_ids(s),
        has_id(s, id),
        lookup(s, id).unwrap().owner@ != other,
    ensures
        owner_lookup(s, id, other) is None,
{
}

/// After an update, the graph read back by identifier holds exactly the
/// node and edge collections last written.
pub proof fn lemma_update_then_read(
    s: Seq<Graph>,
    id: Seq<char>,
    nodes: Vec<Node>,
    edges: Vec<Edge>,
    now: String,
)
    requires
        unique_ids(s),
        has_id(s, id),
    ensures
        lookup(apply_update(s, id, nodes, edges, now), id) is Some,
        lookup(apply_update(s, id, nodes, edges, now), id).unwrap().nodes == nodes,
        lookup(apply_update(s, id, nodes, edges, now), id).unwrap().edges == edges,
{
    let t = apply_update(s, id, nodes, edges, now);
    let i = choose|i: int| 0 <= i < s.len() && #[trigger] s[i].uuid@ == id;
    assert forall|a: int, b: int| 0 <= a < t.len() && 0 <= b < t.len() && #[trigger] t[a].uuid@ == #[trigger] t[b].uuid@ implies a == b by {
        assert(t[a].uuid == s[a].uuid && t[b].uuid == s[b].uuid);
    }
    assert(t[i].uuid@ == id);
    lemma_lookup_at(t, i);
}

/// Deleting twice leaves the store as deleting once does.
pub proof fn lemma_delete_idempotent(s: Seq<Graph>, id: Seq<char>)
    ensures
        apply_delete(apply_delete(s, id), id) == apply_delete(s, id),
{
    lemma_deleted_lacks_id(s, id);
    lemma_delete_absent(apply_delete(s, id), id);
}

} // verus!
