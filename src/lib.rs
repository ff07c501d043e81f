//! Authoring model for node/edge workflow graphs: the persisted graph shape,
//! the factory for new graphs, the translation into the execution engine's
//! input, an in-memory graph store, and the access decisions of the service.

pub mod node_type;
pub mod text;
pub mod json;
pub mod node;
pub mod edge;
pub mod graph;
pub mod translate;
pub mod error;
pub mod store;
pub mod access;
pub mod workflow;
