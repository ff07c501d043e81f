use workflow_graph::edge::{Edge, MarkerEnd};
use workflow_graph::graph::{GraphDetail, GraphInput};
use workflow_graph::node::{
    Node, NodeData, Position, BRANCH_PAYLOAD, HUNDRED_BITS, NULL_PAYLOAD, START_PAYLOAD,
    TWO_HUNDRED_BITS, ZERO_BITS,
};
use workflow_graph::node_type::{get_workflow_node_type, ControlNode, DataNode, NodeType};

#[test]
fn resolver_maps_known_kinds() {
    assert_eq!(get_workflow_node_type("input"), NodeType::Data(DataNode::Input));
    assert_eq!(get_workflow_node_type("prompt"), NodeType::Data(DataNode::Prompt));
    assert_eq!(get_workflow_node_type("identity"), NodeType::Data(DataNode::Identity));
    assert_eq!(get_workflow_node_type("branch"), NodeType::Control(ControlNode::Branch));
    assert_eq!(get_workflow_node_type("llm"), NodeType::Data(DataNode::LLM));
}

#[test]
fn resolver_defaults_unknown_kinds_to_identity() {
    for tag in ["", "LLM", "Input", "inputs", "unknown", "llm ", "分支"] {
        assert_eq!(get_workflow_node_type(tag), NodeType::Data(DataNode::Identity));
    }
}

#[test]
fn position_bits_are_the_doubles() {
    assert_eq!(ZERO_BITS, 0.0f64.to_bits());
    assert_eq!(HUNDRED_BITS, 100.0f64.to_bits());
    assert_eq!(TWO_HUNDRED_BITS, 200.0f64.to_bits());
    let p = Position::new(1.5f64.to_bits(), (-2.0f64).to_bits());
    assert_eq!(f64::from_bits(p.x_bits), 1.5);
    assert_eq!(f64::from_bits(p.y_bits), -2.0);
}

#[test]
fn start_node_is_the_empty_text_input() {
    let n = Node::new_start_node();
    assert_eq!(n.id, "start");
    assert_eq!(n.kind, "input");
    assert_eq!(n.data.label, "Start Node");
    assert_eq!(n.data.description, None);
    assert_eq!(n.position, Position::new(ZERO_BITS, ZERO_BITS));
    let v: serde_json::Value = serde_json::from_str(&n.data.payload).unwrap();
    assert_eq!(v["input"]["type"], "Single");
    assert_eq!(v["input"]["value"]["type"], "Text");
    assert_eq!(v["input"]["value"]["value"], "");
    assert_eq!(n.data.payload, START_PAYLOAD);
}

#[test]
fn end_node_is_a_null_identity() {
    let n = Node::new_end_node();
    assert_eq!(n.id, "end");
    assert_eq!(n.kind, "identity");
    assert_eq!(n.data.label, "End Node");
    assert_eq!(n.data.payload, NULL_PAYLOAD);
    let v: serde_json::Value = serde_json::from_str(&n.data.payload).unwrap();
    assert!(v.is_null());
    assert_eq!(f64::from_bits(n.position.x_bits), 200.0);
    assert_eq!(f64::from_bits(n.position.y_bits), 0.0);
}

#[test]
fn prompt_node_escapes_its_template() {
    let template = "Say \"hi\" to {name}\\\n\tnow\u{1}";
    let n = Node::new_prompt("p1", template);
    assert_eq!(n.id, "p1");
    assert_eq!(n.kind, "prompt");
    assert_eq!(n.data.label, "Prompt Node");
    assert_eq!(n.position, Position::new(HUNDRED_BITS, HUNDRED_BITS));
    assert_eq!(
        n.data.payload,
        "{\"template\":\"Say \\\"hi\\\" to {name}\\\\\\n\\tnow\\u0001\"}"
    );
    let v: serde_json::Value = serde_json::from_str(&n.data.payload).unwrap();
    assert_eq!(v["template"], template);
}

#[test]
fn prompt_node_with_plain_template() {
    let n = Node::new_prompt("A", "hello");
    assert_eq!(n.data.payload, "{\"template\":\"hello\"}");
}

#[test]
fn branch_node_asks_for_a_choice() {
    let n = Node::new_branch("B");
    assert_eq!(n.id, "B");
    assert_eq!(n.kind, "branch");
    assert_eq!(n.data.label, "Branch Node");
    assert_eq!(n.data.payload, BRANCH_PAYLOAD);
    let v: serde_json::Value = serde_json::from_str(&n.data.payload).unwrap();
    assert_eq!(v["input"], "What is your choice?");
}

#[test]
fn new_graph_has_start_and_end_only() {
    let g = GraphInput::with_uuid("g-1".to_string(), "u1", "Demo", "d");
    assert_eq!(g.uuid, "g-1");
    assert_eq!(g.owner, "u1");
    assert_eq!(g.name, "Demo");
    assert_eq!(g.description, "d");
    assert_eq!(g.nodes.len(), 2);
    assert_eq!(g.nodes[0].id, "start");
    assert_eq!(g.nodes[1].id, "end");
    assert!(g.edges.is_empty());
    assert_eq!(g.start_node, "start");
    assert_eq!(g.end_node, "end");
}

#[test]
fn generated_identifiers_are_hyphenated_and_fresh() {
    let a = GraphInput::default_with_owner("u1", "n", "d");
    let b = GraphInput::default_with_owner("u1", "n", "d");
    assert_eq!(a.uuid.chars().count(), 36);
    for (i, c) in a.uuid.chars().enumerate() {
        if i == 8 || i == 13 || i == 18 || i == 23 {
            assert_eq!(c, '-');
        } else {
            assert!(c.is_ascii_hexdigit() && !c.is_ascii_uppercase());
        }
    }
    assert_ne!(a.uuid, b.uuid);
    assert_eq!(a.owner, "u1");
    assert_eq!(a.nodes.len(), 2);
}

#[test]
fn demo_graph_ignores_its_arguments() {
    let g = GraphInput::demo("someone", "name", "desc");
    assert_eq!(g.owner, "demo");
    assert_eq!(g.name, "Demo Graph");
    assert_eq!(g.description, "This is a demo graph");
    assert_eq!(g.nodes.len(), 2);
    assert_eq!(g.uuid.len(), 36);
}

#[test]
fn clones_are_equal_field_by_field() {
    let n = Node {
        id: "x".to_string(),
        kind: "llm".to_string(),
        data: NodeData {
            label: "L".to_string(),
            description: Some("about".to_string()),
            payload: "{\"a\":1}".to_string(),
        },
        position: Position::new(1, 2),
    };
    let c = n.clone();
    assert_eq!(c.id, n.id);
    assert_eq!(c.data.description, n.data.description);
    assert_eq!(c.data.payload, n.data.payload);
    let e = Edge {
        id: "e".to_string(),
        source: "a".to_string(),
        target: "b".to_string(),
        source_handle: Some("out".to_string()),
        target_handle: None,
        marker_end: Some(MarkerEnd { arrow_type: "arrow".to_string(), color: "#fff".to_string() }),
        animated: true,
    };
    let f = e.clone();
    assert_eq!(f.source_handle, e.source_handle);
    assert_eq!(f.marker_end.unwrap().color, "#fff");
    assert!(f.animated);
}

#[test]
fn detail_keeps_content() {
    let input = GraphInput::with_uuid("g".to_string(), "u", "n", "d");
    let graph = workflow_graph::graph::Graph {
        uuid: input.uuid,
        name: input.name,
        description: input.description,
        owner: input.owner,
        nodes: input.nodes,
        edges: input.edges,
        start_node: input.start_node,
        end_node: input.end_node,
        created_at: "t0".to_string(),
        updated_at: "t0".to_string(),
    };
    let d = GraphDetail::from(graph);
    assert_eq!(d.uuid, "g");
    assert_eq!(d.name, "n");
    assert_eq!(d.description, "d");
    assert_eq!(d.nodes.len(), 2);
    assert!(d.edges.is_empty());
}
