use workflow_graph::access::{delete_access, prepare_run, read_access, update_access, is_blank};
use workflow_graph::edge::Edge;
use workflow_graph::error::{ApiError, Error};
use workflow_graph::graph::{CreateGraphRequest, Graph, GraphInput};
use workflow_graph::node::Node;
use workflow_graph::node_type::{ControlNode, DataNode, NodeType};
use workflow_graph::store::{
    insert_graph, default_with_owner, delete_graph_by_id, get_graph_by_id, get_graphs_by_owner,
    get_owner_graph_by_id, update_graph_by_id, GraphStore,
};
use workflow_graph::translate::{StructuralError, WorkflowNode, EdgeData};

fn edge(id: &str, source: &str, target: &str) -> Edge {
    Edge {
        id: id.to_string(),
        source: source.to_string(),
        target: target.to_string(),
        source_handle: None,
        target_handle: None,
        marker_end: None,
        animated: false,
    }
}

fn graph(id: &str, owner: &str, nodes: Vec<Node>, edges: Vec<Edge>, start: &str, end: &str) -> Graph {
    Graph {
        uuid: id.to_string(),
        name: "n".to_string(),
        description: "d".to_string(),
        owner: owner.to_string(),
        nodes,
        edges,
        start_node: start.to_string(),
        end_node: end.to_string(),
        created_at: "t0".to_string(),
        updated_at: "t0".to_string(),
    }
}

fn request(name: &str, description: &str) -> CreateGraphRequest {
    CreateGraphRequest { name: name.to_string(), description: description.to_string() }
}

#[test]
fn created_graph_is_found_by_its_owner() {
    let mut store = GraphStore::new();
    let id = default_with_owner(&mut store, "u1", "Demo", "d", "t0".to_string()).unwrap();
    let g = get_owner_graph_by_id(&store, &id, "u1").unwrap();
    assert_eq!(g.uuid, id);
    assert_eq!(g.nodes.len(), 2);
    assert_eq!(g.nodes[0].id, "start");
    assert_eq!(g.nodes[1].id, "end");
    assert!(g.edges.is_empty());
    assert_eq!(g.created_at, "t0");
    assert_eq!(g.updated_at, "t0");
}

#[test]
fn other_owner_sees_nothing() {
    let mut store = GraphStore::new();
    let id = default_with_owner(&mut store, "o1", "G", "d", "t0".to_string()).unwrap();
    assert!(get_owner_graph_by_id(&store, &id, "o2").is_none());
    assert!(get_owner_graph_by_id(&store, "missing", "o2").is_none());
    assert!(get_graph_by_id(&store, &id).is_some());
}

#[test]
fn update_replaces_content_entirely() {
    let mut store = GraphStore::new();
    let id = default_with_owner(&mut store, "u1", "G", "d", "t0".to_string()).unwrap();
    let nodes = vec![Node::new_start_node(), Node::new_prompt("A", "x"), Node::new_end_node()];
    let edges = vec![edge("e1", "start", "A"), edge("e2", "A", "end")];
    update_graph_by_id(&mut store, &id, nodes, edges, "t1".to_string());
    update_graph_by_id(&mut store, &id, vec![Node::new_branch("B")], vec![], "t2".to_string());
    let g = get_graph_by_id(&store, &id).unwrap();
    assert_eq!(g.nodes.len(), 1);
    assert_eq!(g.nodes[0].id, "B");
    assert!(g.edges.is_empty());
    assert_eq!(g.created_at, "t0");
    assert_eq!(g.updated_at, "t2");
}

#[test]
fn update_of_missing_graph_changes_nothing() {
    let mut store = GraphStore::new();
    let id = default_with_owner(&mut store, "u1", "G", "d", "t0".to_string()).unwrap();
    update_graph_by_id(&mut store, "nope", vec![], vec![], "t1".to_string());
    let g = get_graph_by_id(&store, &id).unwrap();
    assert_eq!(g.nodes.len(), 2);
    assert_eq!(g.updated_at, "t0");
}

#[test]
fn delete_twice_is_fine() {
    let mut store = GraphStore::new();
    let a = default_with_owner(&mut store, "u1", "A", "d", "t0".to_string()).unwrap();
    let b = default_with_owner(&mut store, "u1", "B", "d", "t0".to_string()).unwrap();
    delete_graph_by_id(&mut store, &a);
    delete_graph_by_id(&mut store, &a);
    assert!(get_graph_by_id(&store, &a).is_none());
    assert!(get_graph_by_id(&store, &b).is_some());
    assert_eq!(get_graphs_by_owner(&store, "u1").len(), 1);
}

#[test]
fn creation_in_an_empty_store_succeeds() {
    let mut store = GraphStore::new();
    let id = default_with_owner(&mut store, "u1", "A", "d", "t0".to_string()).unwrap();
    assert_eq!(get_graphs_by_owner(&store, "u1").len(), 1);
    assert_eq!(get_graph_by_id(&store, &id).unwrap().name, "A");
}

#[test]
fn identifier_collision_is_refused() {
    let mut store = GraphStore::new();
    let first = GraphInput::with_uuid("same".to_string(), "u1", "A", "d");
    let second = GraphInput::with_uuid("same".to_string(), "u2", "B", "e");
    assert_eq!(insert_graph(&mut store, first, "t0".to_string()), Ok("same".to_string()));
    assert_eq!(insert_graph(&mut store, second, "t1".to_string()), Err(Error::GraphCreationError));
    let g = get_graph_by_id(&store, "same").unwrap();
    assert_eq!(g.owner, "u1");
    assert_eq!(get_graphs_by_owner(&store, "u2").len(), 0);
}

#[test]
fn listing_is_per_owner_and_in_order() {
    let mut store = GraphStore::new();
    let a = default_with_owner(&mut store, "u1", "A", "first", "t0".to_string()).unwrap();
    default_with_owner(&mut store, "u2", "B", "second", "t0".to_string()).unwrap();
    let c = default_with_owner(&mut store, "u1", "C", "third", "t0".to_string()).unwrap();
    let list = get_graphs_by_owner(&store, "u1");
    assert_eq!(list.len(), 2);
    assert_eq!(list[0].uuid, a);
    assert_eq!(list[0].name, "A");
    assert_eq!(list[0].description, "first");
    assert_eq!(list[1].uuid, c);
    assert_eq!(list[1].name, "C");
    assert!(get_graphs_by_owner(&store, "nobody").is_empty());
}

#[test]
fn demo_scenario_runs_the_default_graph() {
    let mut store = GraphStore::new();
    assert_eq!(request("Demo", "d").validate(), Ok(()));
    let g = default_with_owner(&mut store, "u1", "Demo", "d", "t0".to_string()).unwrap();
    let found = get_owner_graph_by_id(&store, &g, "u1").cloned();
    let data = prepare_run(found).unwrap();
    assert_eq!(data.nodes.len(), 2);
    assert_eq!(data.nodes[0].id, "start");
    assert_eq!(data.nodes[0].node_type, NodeType::Data(DataNode::Input));
    assert_eq!(data.nodes[1].id, "end");
    assert_eq!(data.nodes[1].node_type, NodeType::Data(DataNode::Identity));
    assert_eq!(data.nodes[1].data, "null");
    assert!(data.edges.is_empty());
    assert_eq!(data.start_node.as_deref(), Some("start"));
    assert_eq!(data.end_node.as_deref(), Some("end"));
    assert_eq!(prepare_run(get_owner_graph_by_id(&store, &g, "u2").cloned()).err(), Some(ApiError::GraphNotFound));
}

#[test]
fn translation_carries_nodes_and_edges() {
    let mut e = edge("e1", "start", "A");
    e.source_handle = Some("out".to_string());
    e.target_handle = Some("in".to_string());
    let g = graph(
        "g",
        "u",
        vec![Node::new_start_node(), Node::new_branch("A"), Node::new_prompt("P", "t"), Node::new_end_node()],
        vec![e, edge("e2", "A", "end")],
        "start",
        "end",
    );
    let d = g.to_graph_data();
    assert_eq!(d.nodes.len(), 4);
    assert_eq!(d.nodes[1].node_type, NodeType::Control(ControlNode::Branch));
    assert_eq!(d.nodes[2].node_type, NodeType::Data(DataNode::Prompt));
    assert_eq!(d.nodes[2].data, "{\"template\":\"t\"}");
    assert!(d.nodes.iter().all(|n| n.processors.is_empty() && n.input_id.is_none() && n.output_id.is_none()));
    assert_eq!(d.edges.len(), 2);
    assert_eq!(d.edges[0].id, "e1");
    assert_eq!(d.edges[0].source_handle.as_deref(), Some("out"));
    assert_eq!(d.edges[0].target_handle.as_deref(), Some("in"));
    assert_eq!(d.edges[1].source, "A");
    assert_eq!(d.edges[1].target, "end");
    assert_eq!(d.validate_structure(), Ok(()));
}

#[test]
fn translation_tolerates_dangling_designators() {
    let g = graph("g", "u", vec![Node::new_branch("A")], vec![edge("e", "x", "y")], "start", "end");
    let d = g.to_graph_data();
    assert_eq!(d.nodes.len(), 1);
    assert_eq!(d.start_node.as_deref(), Some("start"));
    assert_eq!(d.end_node.as_deref(), Some("end"));
    assert_eq!(d.validate_structure(), Err(StructuralError::UnknownStartNode));
}

#[test]
fn structure_check_reports_each_failure() {
    let ok_nodes = || vec![Node::new_start_node(), Node::new_end_node()];
    let d = graph("g", "u", ok_nodes(), vec![], "start", "nowhere").to_graph_data();
    assert_eq!(d.validate_structure(), Err(StructuralError::UnknownEndNode));
    let d = graph("g", "u", ok_nodes(), vec![edge("good", "start", "end"), edge("bad", "start", "ghost"), edge("worse", "x", "y")], "start", "end").to_graph_data();
    assert_eq!(d.validate_structure(), Err(StructuralError::DanglingEdge("bad".to_string())));
    let unset = workflow_graph::translate::GraphData {
        nodes: vec![WorkflowNode::from_node(Node::new_end_node())],
        edges: vec![EdgeData::from_edge(edge("e", "end", "end"))],
        start_node: None,
        end_node: None,
    };
    assert_eq!(unset.validate_structure(), Ok(()));
}

#[test]
fn run_of_malformed_graph_is_refused() {
    let g = graph("g", "u", vec![Node::new_start_node()], vec![], "start", "end");
    assert_eq!(prepare_run(Some(g)).err(), Some(ApiError::MalformedGraph));
    assert_eq!(prepare_run(None).err(), Some(ApiError::GraphNotFound));
}

#[test]
fn create_request_bounds() {
    assert_eq!(request("Demo", "d").validate(), Ok(()));
    assert_eq!(request("", "d").validate(), Err(ApiError::InvalidParams));
    assert_eq!(request("  \t\u{3000}", "d").validate(), Err(ApiError::InvalidParams));
    assert_eq!(request(&"n".repeat(100), "d").validate(), Ok(()));
    assert_eq!(request(&"n".repeat(101), "d").validate(), Err(ApiError::InvalidParams));
    assert_eq!(request(&"é".repeat(100), "d").validate(), Ok(()));
    assert_eq!(request("Demo", "").validate(), Err(ApiError::InvalidParams));
    assert_eq!(request("Demo", &"d".repeat(500)).validate(), Ok(()));
    assert_eq!(request("Demo", &"d".repeat(501)).validate(), Err(ApiError::InvalidParams));
}

#[test]
fn blank_text() {
    assert!(is_blank(""));
    assert!(is_blank(" \n\t\u{a0}\u{2003}"));
    assert!(!is_blank(" a "));
    assert!(!is_blank("\u{200b}"));
}

#[test]
fn read_access_hides_foreign_graphs() {
    let g = graph("g", "u1", vec![Node::new_start_node()], vec![], "start", "end");
    let d = read_access(Some(g.clone()), "u1").unwrap();
    assert_eq!(d.uuid, "g");
    assert_eq!(d.nodes.len(), 1);
    assert_eq!(read_access(Some(g), "u2").err(), Some(ApiError::GraphNotFound));
    assert_eq!(read_access(None, "u1").err(), Some(ApiError::GraphNotFound));
}

#[test]
fn update_and_delete_access() {
    let g = graph("g", "u1", vec![], vec![], "start", "end");
    assert_eq!(update_access(Some(&g), "u1"), Ok(()));
    assert_eq!(update_access(Some(&g), "u2"), Err(ApiError::GraphNotOwned));
    assert_eq!(update_access(None, "u1"), Err(ApiError::GraphNotFound));
    assert_eq!(delete_access(Some(&g), "u1"), Ok(()));
    assert_eq!(delete_access(Some(&g), "u2"), Err(ApiError::GraphNotOwned));
    assert_eq!(delete_access(None, "u1"), Err(ApiError::GraphNotFound));
}
