use vstd::prelude::*;

use crate::json::{json_quoted, json_string};

verus! {

/// Bit pattern of the IEEE-754 double `0.0`.
pub const ZERO_BITS: u64 = 0;

/// Bit pattern of the IEEE-754 double `100.0`.
pub const HUNDRED_BITS: u64 = 0x4059_0000_0000_0000;

/// Bit pattern of the IEEE-754 double `200.0`.
pub const TWO_HUNDRED_BITS: u64 = 0x4069_0000_0000_0000;

/// JSON text of the start node's payload: one empty text input.
pub const START_PAYLOAD: &'static str = "{\"input\":{\"type\":\"Single\",\"value\":{\"type\":\"Text\",\"value\":\"\"}}}";

/// JSON text of the end node's payload.
pub const NULL_PAYLOAD: &'static str = "null";

/// JSON text of the branch node's payload.
pub const BRANCH_PAYLOAD: &'static str = "{\"input\":\"What is your choice?\"}";

/// Where a node is drawn. Each coordinate is held as the bit pattern of its
/// IEEE-754 double, so that it passes through the library unchanged.
#[derive(Clone, Copy, Debug, PartialEq, Eq, Structural)]
pub struct Position {
    pub x_bits: u64,
    pub y_bits: u64,
}

impl Position {
    pub fn new(x_bits: u64, y_bits: u64) -> (r: Position)
        ensures
            r.x_bits == x_bits,
            r.y_bits == y_bits,
    {
        Position { x_bits, y_bits }
    }
}

/// What a node carries: a label, an optional description, and the JSON text
/// of the payload that its kind consumes.
#[derive(Debug)]
pub struct NodeData {
    pub label: String,
    pub description: Option<String>,
    pub payload: String,
}

impl Clone for NodeData {
    fn clone(&self) -> (r: Self)
        ensures
            r == *self,
    {
        NodeData {
            label: self.label.clone(),
            description: self.description.clone(),
            payload: self.payload.clone(),
        }
    }
}

/// A node of an authored graph: its identifier within the graph, its kind
/// tag, its data and its position on the canvas.
#[derive(Debug)]
pub struct Node {
    pub id: String,
    pub kind: String,
    pub data: NodeData,
    pub position: Position,
}

impl Clone for Node {
    fn clone(&self) -> (r: Self)
        ensures
            r == *self,
    {
        Node {
            id: self.id.clone(),
            kind: self.kind.clone(),
            data: self.data.clone(),
            position: self.position,
        }
    }
}

/// The node that every new graph starts from.
pub open spec fn is_start_node(n: Node) -> bool {
    &&& n.id@ == "start"@
    &&& n.kind@ == "input"@
    &&& n.data.label@ == "Start Node"@
    &&& n.data.description is None
    &&& n.data.payload@ == START_PAYLOAD@
    &&& n.position == Position { x_bits: ZERO_BITS, y_bits: ZERO_BITS }
}

/// The node that every new graph ends in.
pub open spec fn is_end_node(n: Node) -> bool {
    &&& n.id@ == "end"@
    &&& n.kind@ == "identity"@
    &&& n.data.label@ == "End Node"@
    &&& n.data.description is None
    &&& n.data.payload@ == NULL_PAYLOAD@
    &&& n.position == Position { x_bits: TWO_HUNDRED_BITS, y_bits: ZERO_BITS }
}

/// The JSON text of a prompt node's payload for `template`.
pub open spec fn prompt_payload(template: Seq<char>) -> Seq<char> {
    "{\"template\":"@ + json_quoted(template) + "}"@
}

impl Node {
    /// The entry node of a new graph.
    pub fn new_start_node() -> (r: Node)
        ensures
            is_start_node(r),
    {
        let data = NodeData {
            label: "Start Node".to_owned(),
            description: None,
            payload: START_PAYLOAD.to_owned(),
        };
        Node {
            id: "start".to_owned(),
            kind: "input".to_owned(),
            data: data,
            position: Position::new(ZERO_BITS, ZERO_BITS),
        }
    }

    /// The pass-through terminal node of a new graph.
    pub fn new_end_node() -> (r: Node)
        ensures
            is_end_node(r),
    {
        let data = NodeData {
            label: "End Node".to_owned(),
            description: None,
            payload: NULL_PAYLOAD.to_owned(),
        };
        Node {
            id: "end".to_owned(),
            kind: "identity".to_owned(),
            data: data,
            position: Position::new(TWO_HUNDRED_BITS, ZERO_BITS),
        }
    }

    /// A prompt node whose payload holds `template`.
    pub fn new_prompt(id: &str, template: &str) -> (r: Node)
        ensures
            r.id@ == id@,
            r.kind@ == "prompt"@,
            r.data.label@ == "Prompt Node"@,
            r.data.description is None,
            r.data.payload@ == prompt_payload(template@),
            r.position == (Position { x_bits: HUNDRED_BITS, y_bits: HUNDRED_BITS }),
    {
        let mut payload = "{\"template\":".to_owned();
        let quoted = json_string(template);
        payload.append(quoted.as_str());
        payload.append("}");
        let data = NodeData { label: "Prompt Node".to_owned(), description: None, payload };
        Node {
            id: id.to_owned(),
            kind: "prompt".to_owned(),
            data: data,
            position: Position::new(HUNDRED_BITS, HUNDRED_BITS),
        }
    }

    /// A branch node that asks for a choice.
    pub fn new_branch(id: &str) -> (r: Node)
        ensures
            r.id@ == id@,
            r.kind@ == "branch"@,
            r.data.label@ == "Branch Node"@,
            r.data.description is None,
            r.data.payload@ == BRANCH_PAYLOAD@,
            r.position == (Position { x_bits: HUNDRED_BITS, y_bits: HUNDRED_BITS }),
    {
        let data = NodeData {
            label: "Branch Node".to_owned(),
            description: None,
            payload: BRANCH_PAYLOAD.to_owned(),
        };
        Node {
            id: id.to_owned(),
            kind: "branch".to_owned(),
            data: data,
            position: Position::new(HUNDRED_BITS, HUNDRED_BITS),
        }
    }
}

} // verus!
