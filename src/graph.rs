use vstd::prelude::*;

use crate::edge::Edge;
use crate::node::{is_end_node, is_start_node, Node};

verus! {

/// A persisted graph: identity, owner, metadata, its nodes and edges, the
/// designated start and end nodes, and the store's timestamps.
#[derive(Debug)]
pub struct Graph {
    pub uuid: String,
    pub name: String,
    pub description: String,
    pub owner: String,
    pub nodes: Vec<Node>,
    pub edges: Vec<Edge>,
    pub start_node: String,
    pub end_node: String,
    pub created_at: String,
    pub updated_at: String,
}

impl Clone for Graph {
    fn clone(&self) -> (r: Self)
        ensures
            r.uuid == self.uuid,
            r.name == self.name,
            r.description == self.description,
            r.owner == self.owner,
            r.nodes@ == self.nodes@,
            r.edges@ == self.edges@,
            r.start_node == self.start_node,
            r.end_node == self.end_node,
            r.created_at == self.created_at,
            r.updated_at == self.updated_at,
    {
        let nodes = self.nodes.clone();
        let edges = self.edges.clone();
        assert(nodes@ =~= self.nodes@);
        assert(edges@ =~= self.edges@);
        Graph {
            uuid: self.uuid.clone(),
            name: self.name.clone(),
            description: self.description.clone(),
            owner: self.owner.clone(),
            nodes,
            edges,
            start_node: self.start_node.clone(),
            end_node: self.end_node.clone(),
            created_at: self.created_at.clone(),
            updated_at: self.updated_at.clone(),
        }
    }
}

/// A graph as it is handed to the store, before the store stamps it.
#[derive(Debug)]
pub struct GraphInput {
    pub uuid: String,
    pub owner: String,
    pub name: String,
    pub description: String,
    pub nodes: Vec<Node>,
    pub edges: Vec<Edge>,
    pub start_node: String,
    pub end_node: String,
}

/// The node and edge collections of a graph that nobody has edited yet:
/// the start node and the end node, no edge, and the designators naming them.
pub open spec fn has_default_content(
    nodes: Seq<Node>,
    edges: Seq<Edge>,
    start_node: Seq<char>,
    end_node: Seq<char>,
) -> bool {
    &&& nodes.len() == 2
    &&& is_start_node(nodes[0])
    &&& is_end_node(nodes[1])
    &&& edges.len() == 0
    &&& start_node == "start"@
    &&& end_node == "end"@
}

/// `g` is the new graph with identifier `uuid` for `owner`.
pub open spec fn is_default_input(
    g: GraphInput,
    uuid: Seq<char>,
    owner: Seq<char>,
    name: Seq<char>,
    description: Seq<char>,
) -> bool {
    &&& g.uuid@ == uuid
    &&& g.owner@ == owner
    &&& g.name@ == name
    &&& g.description@ == description
    &&& has_default_content(g.nodes@, g.edges@, g.start_node@, g.end_node@)
}

/// `c` is one of `0`-`9`, `a`-`f`.
pub open spec fn is_lower_hex_digit(c: char) -> bool {
    ('0' <= c && c <= '9') || ('a' <= c && c <= 'f')
}

/// What holds of every identifier that `new_graph_id` hands out: the
/// hyphenated form of a UUID, 32 lower-case hex digits in groups of
/// 8-4-4-4-12.
pub open spec fn is_hyphenated_uuid(s: Seq<char>) -> bool {
    &&& s.len() == 36
    &&& forall|i: int|
        0 <= i < 36 ==> if i == 8 || i == 13 || i == 18 || i == 23 {
            #[trigger] s[i] == '-'
        } else {
            is_lower_hex_digit(s[i])
        }
}

/// Relies on uuid's `Uuid::new_v4` and its `Display`, which writes the
/// hyphenated form: 32 lower-case hex digits in groups of 8-4-4-4-12.
#[verifier::external_body]
fn new_graph_id() -> (r: String)
    ensures
        is_hyphenated_uuid(r@),
{
    uuid::Uuid::new_v4().to_string()
}

impl GraphInput {
    /// The new graph with the given identifier: the start and end nodes, no
    /// edge, and the designators naming the two nodes.
    pub fn with_uuid(uuid: String, owner: &str, name: &str, description: &str) -> (r: GraphInput)
        ensures
            is_default_input(r, uuid@, owner@, name@, description@),
    {
        let start_node = Node::new_start_node();
        let end_node = Node::new_end_node();
        let nodes = vec![start_node, end_node];
        GraphInput {
            uuid,
            owner: owner.to_owned(),
            name: name.to_owned(),
            description: description.to_owned(),
            nodes,
            edges: Vec::new(),
            start_node: "start".to_owned(),
            end_node: "end".to_owned(),
        }
    }

    /// A new graph for `owner` under a freshly generated identifier.
    pub fn default_with_owner(owner: &str, name: &str, description: &str) -> (r: GraphInput)
        ensures
            is_default_input(r, r.uuid@, owner@, name@, description@),
            is_hyphenated_uuid(r.uuid@),
    {
        let uuid = new_graph_id();
        GraphInput::with_uuid(uuid, owner, name, description)
    }

    /// The demonstration graph. Its owner, name and description are fixed;
    /// the arguments are not used.
    pub fn demo(owner: &str, name: &str, description: &str) -> (r: GraphInput)
        ensures
            is_default_input(r, r.uuid@, "demo"@, "Demo Graph"@, "This is a demo graph"@),
            is_hyphenated_uuid(r.uuid@),
    {
        let uuid = new_graph_id();
        GraphInput::with_uuid(uuid, "demo", "Demo Graph", "This is a demo graph")
    }
}

/// Identifier, name and description of a graph, as listings show it.
#[derive(Debug)]
pub struct GraphSummary {
    pub uuid: String,
    pub name: String,
    pub description: String,
}

/// The listing entry of `g`.
pub open spec fn summary_of(g: Graph) -> GraphSummary {
    GraphSummary { uuid: g.uuid, name: g.name, description: g.description }
}

/// A graph as its owner reads it back: metadata and content, without owner,
/// designators or timestamps.
#[derive(Debug)]
pub struct GraphDetail {
    pub uuid: String,
    pub name: String,
    pub description: String,
    pub nodes: Vec<Node>,
    pub edges: Vec<Edge>,
}

/// The detail view of `g`.
pub open spec fn detail_of(g: Graph) -> GraphDetail {
    GraphDetail {
        uuid: g.uuid,
        name: g.name,
        description: g.description,
        nodes: g.nodes,
        edges: g.edges,
    }
}

impl From<Graph> for GraphDetail {
    fn from(graph: Graph) -> (r: GraphDetail) {
        GraphDetail {
            uuid: graph.uuid,
            name: graph.name,
            description: graph.description,
            nodes: graph.nodes,
            edges: graph.edges,
        }
    }
}

impl vstd::std_specs::convert::FromSpecImpl<Graph> for GraphDetail {
    open spec fn obeys_from_spec() -> bool {
        true
    }

    open spec fn from_spec(graph: Graph) -> GraphDetail {
        detail_of(graph)
    }
}

/// Name and description of a graph to create.
#[derive(Debug)]
pub struct CreateGraphRequest {
    pub name: String,
    pub description: String,
}

/// The identifier of a graph that was created.
#[derive(Debug)]
pub struct CreateGraphResponse {
    pub id: String,
}

/// The node and edge collections that replace a graph's content.
#[derive(Debug)]
pub struct UpdateGraphRequest {
    pub nodes: Vec<Node>,
    pub edges: Vec<Edge>,
}

} // verus!
