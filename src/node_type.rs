use vstd::prelude::*;

use crate::text::str_eq;

verus! {

/// Data-processing node kinds of the execution engine.
#[derive(Clone, Copy, Debug, PartialEq, Eq, Structural)]
pub enum DataNode {
    Input,
    Prompt,
    Identity,
    LLM,
}

/// Control-flow node kinds of the execution engine.
#[derive(Clone, Copy, Debug, PartialEq, Eq, Structural)]
pub enum ControlNode {
    Branch,
}

/// The closed set of node types that the execution engine runs.
#[derive(Clone, Copy, Debug, PartialEq, Eq, Structural)]
pub enum NodeType {
    Data(DataNode),
    Control(ControlNode),
}

/// The engine node type that an authoring kind tag stands for. Unknown tags
/// fall back to the pass-through identity node.
pub open spec fn node_type_of(kind: Seq<char>) -> NodeType {
    if kind == "input"@ {
        NodeType::Data(DataNode::Input)
    } else if kind == "prompt"@ {
        NodeType::Data(DataNode::Prompt)
    } else if kind == "identity"@ {
        NodeType::Data(DataNode::Identity)
    } else if kind == "branch"@ {
        NodeType::Control(ControlNode::Branch)
    } else if kind == "llm"@ {
        NodeType::Data(DataNode::LLM)
    } else {
        NodeType::Data(DataNode::Identity)
    }
}

/// Resolves an authoring kind tag to the engine's node type. Total: every
/// tag resolves, unknown ones to the identity node.
pub fn get_workflow_node_type(t: &str) -> (r: NodeType)
    ensures
        r == node_type_of(t@),
{
    if str_eq(t, "input") {
        NodeType::Data(DataNode::Input)
    } else if str_eq(t, "prompt") {
        NodeType::Data(DataNode::Prompt)
    } else if str_eq(t, "identity") {
        NodeType::Data(DataNode::Identity)
    } else if str_eq(t, "branch") {
        NodeType::Control(ControlNode::Branch)
    } else if str_eq(t, "llm") {
        NodeType::Data(DataNode::LLM)
    } else {
        NodeType::Data(DataNode::Identity)
    }
}

} // verus!
