use vstd::prelude::*;

verus! {

/// Arrow drawn at the target end of an edge; presentation only.
#[derive(Debug)]
pub struct MarkerEnd {
    pub arrow_type: String,
    pub color: String,
}

impl Clone for MarkerEnd {
    fn clone(&self) -> (r: Self)
        ensures
            r == *self,
    {
        MarkerEnd { arrow_type: self.arrow_type.clone(), color: self.color.clone() }
    }
}

/// A directed connection between two nodes of a graph, optionally between
/// named handles of those nodes.
#[derive(Debug)]
pub struct Edge {
    pub id: String,
    pub source: String,
    pub target: String,
    pub source_handle: Option<String>,
    pub target_handle: Option<String>,
    pub marker_end: Option<MarkerEnd>,
    pub animated: bool,
}

impl Clone for Edge {
    fn clone(&self) -> (r: Self)
        ensures
            r == *self,
    {
        Edge {
            id: self.id.clone(),
            source: self.source.clone(),
            target: self.target.clone(),
            source_handle: self.source_handle.clone(),
            target_handle: self.target_handle.clone(),
            marker_end: self.marker_end.clone(),
            animated: self.animated,
        }
    }
}

} // verus!
