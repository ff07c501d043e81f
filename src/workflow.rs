use vstd::prelude::*;

verus! {

/// Asks for a run of the graph with this identifier.
#[derive(Debug)]
pub struct RunWorkflowRequest {
    pub id: String,
}

/// The text that a run produced.
#[derive(Debug)]
pub struct WorkflowOutput {
    pub output: String,
}

/// The HTTP listener's configuration.
#[derive(Debug, Clone, Copy, PartialEq, Eq, Structural)]
pub struct HttpCfg {
    pub port: u16,
}

} // verus!
