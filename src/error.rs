use vstd::prelude::*;

verus! {

/// Failures of the graph store.
#[derive(Debug, PartialEq, Eq, Structural)]
pub enum Error {
    /// The graph could not be stored: its identifier is already taken.
    GraphCreationError,
}

/// What the service answers when it refuses a request.
#[derive(Debug, PartialEq, Eq, Structural)]
pub enum ApiError {
    /// The request's parameters are out of bounds.
    InvalidParams,
    /// No graph under that identifier is visible to the caller.
    GraphNotFound,
    /// The graph exists but belongs to someone else.
    GraphNotOwned,
    /// The graph's designators or edges name nodes that it does not have.
    MalformedGraph,
}

} // verus!
