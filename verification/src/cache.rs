//! The graph cache: resolution requests name a graph by identifier, and a
//! request for an identifier absent from the cache fails whole — there is
//! nothing to resolve.

use std::collections::HashMap;

use vstd::prelude::*;

use crate::errors::GraphError;
use crate::graph::Graph;
use crate::node::GraphNode;

verus! {

broadcast use vstd::std_specs::hash::group_hash_axioms;

/// One cached graph, keyed by its 128-bit identifier.
#[derive(Debug)]
pub struct GraphInfo {
    pub graph: Graph,
}

/// Retrieves all nodes of the graph with the given identifier. Returns
/// `GraphNotFound` exactly when the cache holds no graph under that
/// identifier; no partial result is returned.
pub fn get_nodes_in_graph<'a>(
    graph_id: u128,
    graphs_cache: &'a HashMap<u128, GraphInfo>,
) -> (r: Result<&'a Vec<GraphNode>, GraphError>)
    ensures
        r is Ok <==> graphs_cache@.contains_key(graph_id),
        r matches Ok(nodes) ==> *nodes == graphs_cache@[graph_id].graph.nodes,
        r matches Err(e) ==> e == GraphError::GraphNotFound,
{
    match graphs_cache.get(&graph_id) {
        Some(graph_info) => Ok(&graph_info.graph.nodes),
        None => Err(GraphError::GraphNotFound),
    }
}

} // verus!
