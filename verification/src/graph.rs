//! The graph snapshot the resolver reads: a node list and a connection list,
//! plus classification of externally-supplied node descriptions.

use vstd::prelude::*;

use crate::errors::GraphError;
use crate::filter::Filter;
use crate::node::{ExtensionNode, GraphNode, GraphReference, SelectorNode, SubgraphNode};
use crate::strings::string_eq_str;

verus! {

/// A location appearing in a connection: the origin of the connection or one
/// end of a flow entry.
#[derive(Debug)]
pub struct GraphLoc {
    pub app: Option<String>,
    pub extension: Option<String>,
    pub subgraph: Option<String>,
    pub selector: Option<String>,
}

/// The node name a location refers to; the empty name when the location
/// names no node.
pub open spec fn spec_loc_node_name(loc: GraphLoc) -> Seq<char> {
    match loc.extension {
        Some(s) => s@,
        None => match loc.subgraph {
            Some(s) => s@,
            None => match loc.selector {
                Some(s) => s@,
                None => Seq::empty(),
            },
        },
    }
}

impl GraphLoc {
    /// The name of the node this location refers to, if it names one.
    pub fn get_node_name(&self) -> (r: Option<&String>)
        ensures
            match r {
                Some(s) => s@ == spec_loc_node_name(*self) && (self.extension is Some
                    || self.subgraph is Some || self.selector is Some),
                None => self.extension is None && self.subgraph is None && self.selector is None,
            },
    {
        match &self.extension {
            Some(s) => Some(s),
            None => match &self.subgraph {
                Some(s) => Some(s),
                None => match &self.selector {
                    Some(s) => Some(s),
                    None => None,
                },
            },
        }
    }
}

/// One flow entry of a connection: one or more message names (a singular
/// `name` and/or a list `names`), and the source and destination location
/// lists.
#[derive(Debug)]
pub struct GraphMessageFlow {
    pub name: Option<String>,
    pub names: Option<Vec<String>>,
    pub source: Vec<GraphLoc>,
    pub dest: Vec<GraphLoc>,
}

/// A connection: an origin location and, per message category, an optional
/// list of flow entries.
#[derive(Debug)]
pub struct GraphConnection {
    pub loc: GraphLoc,
    pub cmd: Option<Vec<GraphMessageFlow>>,
    pub data: Option<Vec<GraphMessageFlow>>,
    pub audio_frame: Option<Vec<GraphMessageFlow>>,
    pub video_frame: Option<Vec<GraphMessageFlow>>,
}

/// An immutable snapshot of a graph: its nodes and its connections.
#[derive(Debug)]
pub struct Graph {
    pub nodes: Vec<GraphNode>,
    pub connections: Option<Vec<GraphConnection>>,
}

impl Graph {
    /// All nodes of the graph.
    pub fn nodes(&self) -> (r: &Vec<GraphNode>)
        ensures
            r == &self.nodes,
    {
        &self.nodes
    }
}

/// An externally-supplied node description, before classification: a `kind`
/// discriminant and the union of the fields the three node shapes may carry.
#[derive(Debug)]
pub struct RawGraphNode {
    /// The kind discriminant: `extension`, `subgraph` or `selector`.
    pub kind: String,
    pub name: String,
    pub addon: Option<String>,
    pub extension_group: Option<String>,
    pub app: Option<String>,
    pub property: Option<serde_json::Value>,
    pub import_uri: Option<String>,
    pub filter: Option<Filter>,
}

/// Whether a raw description matches one of the three known node shapes.
pub open spec fn spec_classifiable(raw: RawGraphNode) -> bool {
    ||| (raw.kind@ == "extension"@ && raw.addon is Some)
    ||| (raw.kind@ == "subgraph"@ && raw.import_uri is Some)
    ||| (raw.kind@ == "selector"@ && raw.filter is Some)
}

/// The node a classifiable raw description denotes. An `extension`
/// description becomes a plain extension node, a `subgraph` description a
/// subgraph-reference node, and a `selector` description a selector node.
pub open spec fn spec_classify(raw: RawGraphNode) -> GraphNode
    recommends
        spec_classifiable(raw),
{
    if raw.kind@ == "extension"@ {
        GraphNode::Extension {
            content: ExtensionNode {
                name: raw.name,
                addon: raw.addon->0,
                extension_group: raw.extension_group,
                app: raw.app,
                property: raw.property,
            },
        }
    } else if raw.kind@ == "subgraph"@ {
        GraphNode::Subgraph {
            content: SubgraphNode {
                name: raw.name,
                property: raw.property,
                graph: GraphReference { import_uri: raw.import_uri->0 },
            },
        }
    } else {
        GraphNode::Selector { content: SelectorNode { name: raw.name, filter: raw.filter->0 } }
    }
}

/// Maps an externally-supplied node description into the tagged node union.
/// Fails with `UnrecognizedKind` exactly when the discriminant (together
/// with the field that shape requires) matches none of the three known
/// shapes. A failure concerns this description alone: sibling descriptions
/// can still be classified independently.
pub fn classify(raw: RawGraphNode) -> (r: Result<GraphNode, GraphError>)
    ensures
        r is Ok <==> spec_classifiable(raw),
        r matches Ok(n) ==> n == spec_classify(raw),
        r matches Err(e) ==> e == GraphError::UnrecognizedKind,
{
    proof {
        reveal_strlit("extension");
        reveal_strlit("subgraph");
        reveal_strlit("selector");
        assert("extension"@.len() == 9);
        assert("subgraph"@.len() == 8);
        assert("selector"@.len() == 8);
        assert("subgraph"@ != "selector"@) by {
            assert("subgraph"@[1] == 'u');
            assert("selector"@[1] == 'e');
        }
    }
    let RawGraphNode { kind, name, addon, extension_group, app, property, import_uri, filter } =
        raw;
    if string_eq_str(&kind, "extension") {
        match addon {
            Some(addon) => Ok(
                GraphNode::Extension {
                    content: ExtensionNode { name, addon, extension_group, app, property },
                },
            ),
            None => Err(GraphError::UnrecognizedKind),
        }
    } else if string_eq_str(&kind, "subgraph") {
        match import_uri {
            Some(import_uri) => Ok(
                GraphNode::Subgraph {
                    content: SubgraphNode {
                        name,
                        property,
                        graph: GraphReference { import_uri },
                    },
                },
            ),
            None => Err(GraphError::UnrecognizedKind),
        }
    } else if string_eq_str(&kind, "selector") {
        match filter {
            Some(filter) => Ok(
                GraphNode::Selector { content: SelectorNode { name, filter } },
            ),
            None => Err(GraphError::UnrecognizedKind),
        }
    } else {
        Err(GraphError::UnrecognizedKind)
    }
}

} // verus!
