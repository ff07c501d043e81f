use vstd::prelude::*;

use crate::edge::Edge;
use crate::graph::Graph;
use crate::node::Node;
use crate::node_type::{get_workflow_node_type, node_type_of, NodeType};

verus! {

/// A node as the execution engine takes it: identifier, resolved type, the
/// JSON text of its payload, its processor bindings and its optional input
/// and output channels.
#[derive(Debug)]
pub struct WorkflowNode {
    pub id: String,
    pub node_type: NodeType,
    pub data: String,
    pub processors: Vec<String>,
    pub input_id: Option<String>,
    pub output_id: Option<String>,
}

/// An edge as the execution engine takes it.
#[derive(Debug)]
pub struct EdgeData {
    pub id: String,
    pub source: String,
    pub target: String,
    pub source_handle: Option<String>,
    pub target_handle: Option<String>,
}

/// The execution-ready form of a graph, built afresh for each run.
#[derive(Debug)]
pub struct GraphData {
    pub nodes: Vec<WorkflowNode>,
    pub edges: Vec<EdgeData>,
    pub start_node: Option<String>,
    pub end_node: Option<String>,
}

/// `w` is the engine node for the authored node `n`: same identifier, the
/// type its kind resolves to, the payload verbatim, no processor and no
/// channel.
pub open spec fn translates_node(n: Node, w: WorkflowNode) -> bool {
    &&& w.id == n.id
    &&& w.node_type == node_type_of(n.kind@)
    &&& w.data == n.data.payload
    &&& w.processors@.len() == 0
    &&& w.input_id is None
    &&& w.output_id is None
}

/// The engine edge for the authored edge `e`.
pub open spec fn edge_data_of(e: Edge) -> EdgeData {
    EdgeData {
        id: e.id,
        source: e.source,
        target: e.target,
        source_handle: e.source_handle,
        target_handle: e.target_handle,
    }
}

/// `d` is the translation of `g`: node by node and edge by edge in the same
/// order, with `g`'s designators as its start and end.
pub open spec fn translates_graph(g: Graph, d: GraphData) -> bool {
    &&& d.nodes@.len() == g.nodes@.len()
    &&& forall|k: int| 0 <= k < g.nodes@.len() ==> translates_node(g.nodes@[k], #[trigger] d.nodes@[k])
    &&& d.edges@ == g.edges@.map_values(|e: Edge| edge_data_of(e))
    &&& d.start_node == Some(g.start_node)
    &&& d.end_node == Some(g.end_node)
}

impl WorkflowNode {
    /// The engine node for an authored node.
    pub fn from_node(node: Node) -> (r: WorkflowNode)
        ensures
            translates_node(node, r),
    {
        let node_type = get_workflow_node_type(node.kind.as_str());
        WorkflowNode {
            id: node.id,
            node_type: node_type,
            data: node.data.payload,
            processors: Vec::new(),
            input_id: None,
            output_id: None,
        }
    }
}

impl EdgeData {
    /// The engine edge for an authored edge; the marker and the animation
    /// flag are presentation only and are dropped.
    pub fn from_edge(edge: Edge) -> (r: EdgeData)
        ensures
            r == edge_data_of(edge),
    {
        EdgeData {
            id: edge.id,
            source: edge.source,
            target: edge.target,
            source_handle: edge.source_handle,
            target_handle: edge.target_handle,
        }
    }
}

impl Graph {
    /// Re-shapes a persisted graph into the engine's input. Never fails:
    /// dangling edges or designators are carried as they are.
    pub fn to_graph_data(self) -> (r: GraphData)
        ensures
            translates_graph(self, r),
    {
        let ghost src = self;
        let Graph { nodes: src_nodes, edges: src_edges, start_node, end_node, .. } = self;
        let mut nodes: Vec<WorkflowNode> = Vec::new();
        for n in it: src_nodes.into_iter()
            invariant
                it.seq() == src.nodes@,
                nodes@.len() == it.index(),
                forall|k: int| 0 <= k < it.index() ==> translates_node(src.nodes@[k], #[trigger] nodes@[k]),
        {
            nodes.push(WorkflowNode::from_node(n));
        }
        let mut edges: Vec<EdgeData> = Vec::new();
        for e in it: src_edges.into_iter()
            invariant
                it.seq() == src.edges@,
                edges@ == src.edges@.take(it.index() as int).map_values(|e: Edge| edge_data_of(e)),
        {
            proof {
                assert(src.edges@.take(it.index() + 1) =~= src.edges@.take(it.index() as int).push(e));
            }
            edges.push(EdgeData::from_edge(e));
        }
        proof {
            assert(src.edges@.take(src.edges@.len() as int) =~= src.edges@);
        }
        GraphData { nodes, edges, start_node: Some(start_node), end_node: Some(end_node) }
    }
}

/// Why a translated graph cannot be handed to the engine.
#[derive(Debug, PartialEq, Eq)]
pub enum StructuralError {
    /// The start designator names no node.
    UnknownStartNode,
    /// The end designator names no node.
    UnknownEndNode,
    /// The edge with this identifier has an endpoint that names no node.
    DanglingEdge(String),
}

/// Some node of `nodes` has identifier `id`.
pub open spec fn has_node(nodes: Seq<WorkflowNode>, id: Seq<char>) -> bool {
    exists|k: int| 0 <= k < nodes.len() && #[trigger] nodes[k].id@ == id
}

/// A designator that is set names a node of `nodes`.
pub open spec fn designates_node(nodes: Seq<WorkflowNode>, d: Option<String>) -> bool {
    match d {
        Some(id) => has_node(nodes, id@),
        None => true,
    }
}

/// Both endpoints of `e` name nodes of `nodes`.
pub open spec fn edge_resolves(nodes: Seq<WorkflowNode>, e: EdgeData) -> bool {
    has_node(nodes, e.source@) && has_node(nodes, e.target@)
}

/// Edge `i` of `d` is the first whose endpoints do not both resolve.
pub open spec fn is_first_dangling(d: GraphData, i: int) -> bool {
    &&& 0 <= i < d.edges@.len()
    &&& !edge_resolves(d.nodes@, d.edges@[i])
    &&& forall|j: int| 0 <= j < i ==> edge_resolves(d.nodes@, #[trigger] d.edges@[j])
}

/// Every designator and every edge endpoint of `d` names one of its nodes.
pub open spec fn is_structurally_sound(d: GraphData) -> bool {
    &&& designates_node(d.nodes@, d.start_node)
    &&& designates_node(d.nodes@, d.end_node)
    &&& forall|i: int| 0 <= i < d.edges@.len() ==> edge_resolves(d.nodes@, #[trigger] d.edges@[i])
}

fn contains_node(nodes: &Vec<WorkflowNode>, id: &String) -> (r: bool)
    ensures
        r == has_node(nodes@, id@),
{
    let mut k: usize = 0;
    while k < nodes.len()
        invariant
            k <= nodes@.len(),
            forall|j: int| 0 <= j < k ==> nodes@[j].id@ != id@,
        decreases nodes@.len() - k,
    {
        if nodes[k].id == *id {
            return true;
        }
        k = k + 1;
    }
    false
}

fn designator_resolves(nodes: &Vec<WorkflowNode>, d: &Option<String>) -> (r: bool)
    ensures
        r == designates_node(nodes@, *d),
{
    match d {
        Some(id) => contains_node(nodes, id),
        None => true,
    }
}

impl GraphData {
    /// Checks, before a run, that the designators and every edge endpoint
    /// name nodes of the graph; reports the first failure found, designators
    /// first, then edges in order.
    pub fn validate_structure(&self) -> (r: Result<(), StructuralError>)
        ensures
            r is Ok <==> is_structurally_sound(*self),
            match r {
                Ok(()) => true,
                Err(StructuralError::UnknownStartNode) => !designates_node(self.nodes@, self.start_node),
                Err(StructuralError::UnknownEndNode) => {
                    designates_node(self.nodes@, self.start_node)
                        && !designates_node(self.nodes@, self.end_node)
                },
                Err(StructuralError::DanglingEdge(id)) => {
                    &&& designates_node(self.nodes@, self.start_node)
                    &&& designates_node(self.nodes@, self.end_node)
                    &&& exists|i: int| is_first_dangling(*self, i) && #[trigger] self.edges@[i].id == id
                },
            },
    {
        if !designator_resolves(&self.nodes, &self.start_node) {
            return Err(StructuralError::UnknownStartNode);
        }
        if !designator_resolves(&self.nodes, &self.end_node) {
            return Err(StructuralError::UnknownEndNode);
        }
        let mut i: usize = 0;
        while i < self.edges.len()
            invariant
                i <= self.edges@.len(),
                designates_node(self.nodes@, self.start_node),
                designates_node(self.nodes@, self.end_node),
                forall|j: int| 0 <= j < i ==> edge_resolves(self.nodes@, #[trigger] self.edges@[j]),
            decreases self.edges@.len() - i,
        {
            let e = &self.edges[i];
            if !contains_node(&self.nodes, &e.source) || !contains_node(&self.nodes, &e.target) {
                let id = e.id.clone();
                assert(is_first_dangling(*self, i as int) && self.edges@[i as int].id == id);
                return Err(StructuralError::DanglingEdge(id));
            }
            i = i + 1;
        }
        Ok(())
    }
}

/// Some node of `nodes` has identifier `id`.
pub open spec fn has_authored_node(nodes: Seq<Node>, id: Seq<char>) -> bool {
    exists|k: int| 0 <= k < nodes.len() && #[trigger] nodes[k].id@ == id
}

/// The designators and every edge endpoint of `g` name nodes of `g`: the
/// engine can be handed its translation.
pub open spec fn is_runnable(g: Graph) -> bool {
    &&& has_authored_node(g.nodes@, g.start_node@)
    &&& has_authored_node(g.nodes@, g.end_node@)
    &&& forall|i: int|
        0 <= i < g.edges@.len() ==> has_authored_node(g.nodes@, (#[trigger] g.edges@[i]).source@)
            && has_authored_node(g.nodes@, g.edges@[i].target@)
}

/// A translation is structurally sound exactly when the authored graph is
/// runnable.
pub proof fn lemma_translation_keeps_soundness(g: Graph, d: GraphData)
    requires
        translates_graph(g, d),
    ensures
        is_structurally_sound(d) == is_runnable(g),
{
    assert forall|id: Seq<char>| has_node(d.nodes@, id) == has_authored_node(g.nodes@, id) by {
        if has_node(d.nodes@, id) {
            let k = choose|k: int| 0 <= k < d.nodes@.len() && #[trigger] d.nodes@[k].id@ == id;
            assert(translates_node(g.nodes@[k], d.nodes@[k]));
        }
        if has_authored_node(g.nodes@, id) {
            let k = choose|k: int| 0 <= k < g.nodes@.len() && #[trigger] g.nodes@[k].id@ == id;
            assert(translates_node(g.nodes@[k], d.nodes@[k]));
        }
    }
    assert(d.edges@.len() == g.edges@.len());
    if is_runnable(g) {
        assert forall|i: int| 0 <= i < d.edges@.len() implies edge_resolves(d.nodes@, #[trigger] d.edges@[i]) by {
            assert(d.edges@[i] == edge_data_of(g.edges@[i]));
        }
    }
    if is_structurally_sound(d) {
        assert forall|i: int| 0 <= i < g.edges@.len() implies has_authored_node(g.nodes@, (#[trigger] g.edges@[i]).source@)
            && has_authored_node(g.nodes@, g.edges@[i].target@) by {
            assert(d.edges@[i] == edge_data_of(g.edges@[i]));
            assert(edge_resolves(d.nodes@, d.edges@[i]));
        }
    }
}

} // verus!
