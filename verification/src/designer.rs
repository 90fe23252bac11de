//! The designer-facing mirror of a graph: the node shapes the authoring
//! tool's API exposes, including the derived, mutable `messages` list of a
//! selector node.

use vstd::prelude::*;

use crate::filter::{AtomicFilter, Filter, FilterOperator};
use crate::graph::GraphConnection;
use crate::message::DesignerSelectorMessageInfo;
use crate::node::GraphNode;

verus! {

/// How a designer atomic filter compares an attribute value.
#[derive(Clone, Copy, Debug, PartialEq, Eq, Structural)]
pub enum DesignerFilterOperator {
    Exact,
    Regex,
}

/// An atomic comparison of one node attribute, as the designer API carries
/// it.
#[derive(Debug)]
pub struct DesignerAtomicFilter {
    pub field: String,
    pub operator: DesignerFilterOperator,
    pub value: String,
}

/// A boolean filter expression tree, as the designer API carries it.
#[derive(Debug)]
pub enum DesignerFilter {
    Atomic(DesignerAtomicFilter),
    And { and: Vec<DesignerFilter> },
    Or { or: Vec<DesignerFilter> },
}

/// A plain extension node, as the designer API exposes it.
#[derive(Debug)]
pub struct DesignerExtensionNode {
    pub addon: String,
    pub name: String,
    /// The app this extension belongs to.
    pub app: Option<String>,
    /// The extension group this extension belongs to.
    pub extension_group: Option<String>,
    pub property: Option<serde_json::Value>,
    /// Whether the extension is installed under the packages directory.
    pub is_installed: bool,
}

/// Where a designer subgraph node finds the graph it imports, and that
/// graph once resolved.
#[derive(Debug)]
pub struct DesignerGraphContent {
    pub import_uri: String,
    pub graph: Option<DesignerGraph>,
}

/// A subgraph-reference node, as the designer API exposes it.
#[derive(Debug)]
pub struct DesignerSubgraphNode {
    pub name: String,
    pub property: Option<serde_json::Value>,
    pub graph: DesignerGraphContent,
}

/// A selector node, as the designer API exposes it: its filter and its
/// derived `messages` list — empty at construction, replaced wholesale by
/// each resolution pass.
#[derive(Debug)]
pub struct DesignerSelectorNode {
    pub name: String,
    pub filter: DesignerFilter,
    /// The message bindings of the nodes this selector denotes.
    pub messages: Vec<DesignerSelectorMessageInfo>,
}

/// A node of a designer graph.
#[derive(Debug)]
pub enum DesignerGraphNode {
    Extension { content: DesignerExtensionNode },
    Subgraph { content: DesignerSubgraphNode },
    Selector { content: DesignerSelectorNode },
}

/// A designer graph: the mirror of a graph snapshot that the authoring
/// tool's API works on.
#[derive(Debug)]
pub struct DesignerGraph {
    pub nodes: Vec<DesignerGraphNode>,
    pub connections: Vec<GraphConnection>,
}

/// A designer operator mirrors a graph operator when they name the same
/// comparison.
pub open spec fn operator_mirrors(d: DesignerFilterOperator, f: FilterOperator) -> bool {
    match d {
        DesignerFilterOperator::Exact => f == FilterOperator::Exact,
        DesignerFilterOperator::Regex => f == FilterOperator::Regex,
    }
}

/// A designer filter mirrors a graph filter when the trees have the same
/// shape and the same atoms.
pub open spec fn filter_mirrors(d: DesignerFilter, f: Filter) -> bool
    decreases d,
{
    match d {
        DesignerFilter::Atomic(da) => f matches Filter::Atomic(a) && operator_mirrors(
            da.operator,
            a.operator,
        ) && da.field == a.field && da.value == a.value,
        DesignerFilter::And { and } => f matches Filter::And { and: fand } && and@.len()
            == fand@.len() && (forall|i: int|
            0 <= i < and@.len() ==> filter_mirrors(#[trigger] and@[i], fand@[i])),
        DesignerFilter::Or { or } => f matches Filter::Or { or: for_ } && or@.len() == for_@.len()
            && (forall|i: int|
            0 <= i < or@.len() ==> filter_mirrors(#[trigger] or@[i], for_@[i])),
    }
}

impl DesignerFilterOperator {
    /// The designer mirror of a graph filter operator.
    pub fn from_operator(op: &FilterOperator) -> (r: DesignerFilterOperator)
        ensures
            operator_mirrors(r, *op),
    {
        match op {
            FilterOperator::Exact => DesignerFilterOperator::Exact,
            FilterOperator::Regex => DesignerFilterOperator::Regex,
        }
    }
}

impl DesignerAtomicFilter {
    /// The designer mirror of a graph atomic filter.
    pub fn from_atomic_filter(a: AtomicFilter) -> (r: DesignerAtomicFilter)
        ensures
            r.field == a.field,
            r.value == a.value,
            operator_mirrors(r.operator, a.operator),
    {
        DesignerAtomicFilter {
            field: a.field,
            operator: DesignerFilterOperator::from_operator(&a.operator),
            value: a.value,
        }
    }
}

impl DesignerFilter {
    /// The designer mirror of a graph filter tree.
    #[verifier::loop_isolation(false)]
    pub fn from_filter(f: Filter) -> (r: DesignerFilter)
        ensures
            filter_mirrors(r, f),
        decreases f,
    {
        match f {
            Filter::Atomic(a) => DesignerFilter::Atomic(DesignerAtomicFilter::from_atomic_filter(a)),
            Filter::And { and } => {
                let ghost src = and@;
                let mut rest = and;
                let mut out: Vec<DesignerFilter> = Vec::new();
                proof {
                    assert(src.take(0) =~= Seq::<Filter>::empty());
                }
                while rest.len() > 0
                    invariant
                        out@.len() + rest@.len() == src.len(),
                        rest@ =~= src.skip(out@.len() as int),
                        forall|i: int|
                            0 <= i < out@.len() ==> filter_mirrors(#[trigger] out@[i], src[i]),
                    decreases rest@.len(),
                {
                    proof {
                        assert(rest@[0] == src[out@.len() as int]);
                        assert(decreases_to!(f => f->and));
                        assert(decreases_to!(f->and => f->and@));
                        assert(f->and@ == src);
                        assert(decreases_to!(src => src[out@.len() as int]));
                    }
                    let child = rest.remove(0);
                    let converted = DesignerFilter::from_filter(child);
                    out.push(converted);
                    proof {
                        assert(rest@ =~= src.skip(out@.len() as int));
                    }
                }
                DesignerFilter::And { and: out }
            },
            Filter::Or { or } => {
                let ghost src = or@;
                let mut rest = or;
                let mut out: Vec<DesignerFilter> = Vec::new();
                while rest.len() > 0
                    invariant
                        out@.len() + rest@.len() == src.len(),
                        rest@ =~= src.skip(out@.len() as int),
                        forall|i: int|
                            0 <= i < out@.len() ==> filter_mirrors(#[trigger] out@[i], src[i]),
                    decreases rest@.len(),
                {
                    proof {
                        assert(rest@[0] == src[out@.len() as int]);
                        assert(decreases_to!(f => f->or));
                        assert(decreases_to!(f->or => f->or@));
                        assert(f->or@ == src);
                        assert(decreases_to!(src => src[out@.len() as int]));
                    }
                    let child = rest.remove(0);
                    let converted = DesignerFilter::from_filter(child);
                    out.push(converted);
                    proof {
                        assert(rest@ =~= src.skip(out@.len() as int));
                    }
                }
                DesignerFilter::Or { or: out }
            },
        }
    }
}

impl DesignerGraphNode {
    /// The name of the node regardless of its type.
    pub fn get_name(&self) -> (r: &str)
        ensures
            r@ == spec_designer_node_name(*self),
    {
        match self {
            DesignerGraphNode::Extension { content } => content.name.as_str(),
            DesignerGraphNode::Subgraph { content } => content.name.as_str(),
            DesignerGraphNode::Selector { content } => content.name.as_str(),
        }
    }

    /// The designer mirror of a graph node. A selector's `messages` list
    /// starts empty; it is populated only by a resolution pass. A subgraph
    /// reference starts unresolved; an extension starts uninstalled.
    pub fn from_graph_node(node: GraphNode) -> (r: DesignerGraphNode)
        ensures
            designer_node_mirrors(r, node),
    {
        match node {
            GraphNode::Extension { content } => DesignerGraphNode::Extension {
                content: DesignerExtensionNode {
                    addon: content.addon,
                    name: content.name,
                    app: content.app,
                    extension_group: content.extension_group,
                    property: content.property,
                    is_installed: false,
                },
            },
            GraphNode::Subgraph { content } => DesignerGraphNode::Subgraph {
                content: DesignerSubgraphNode {
                    name: content.name,
                    property: content.property,
                    graph: DesignerGraphContent {
                        import_uri: content.graph.import_uri,
                        graph: None,
                    },
                },
            },
            GraphNode::Selector { content } => DesignerGraphNode::Selector {
                content: DesignerSelectorNode {
                    name: content.name,
                    filter: DesignerFilter::from_filter(content.filter),
                    messages: Vec::new(),
                },
            },
        }
    }
}

/// The name of a designer node, over any of the three variants.
pub open spec fn spec_designer_node_name(n: DesignerGraphNode) -> Seq<char> {
    match n {
        DesignerGraphNode::Extension { content } => content.name@,
        DesignerGraphNode::Subgraph { content } => content.name@,
        DesignerGraphNode::Selector { content } => content.name@,
    }
}

/// A designer node mirrors the graph node it was built from: same variant,
/// same fields; a selector's messages start empty, a subgraph reference
/// starts unresolved, an extension starts uninstalled.
pub open spec fn designer_node_mirrors(d: DesignerGraphNode, n: GraphNode) -> bool {
    match n {
        GraphNode::Extension { content } => d matches DesignerGraphNode::Extension { content: dc }
            && dc.addon == content.addon && dc.name == content.name && dc.app == content.app
            && dc.extension_group == content.extension_group && dc.property == content.property
            && dc.is_installed == false,
        GraphNode::Subgraph { content } => d matches DesignerGraphNode::Subgraph { content: dc }
            && dc.name == content.name && dc.property == content.property
            && dc.graph.import_uri == content.graph.import_uri && dc.graph.graph is None,
        GraphNode::Selector { content } => d matches DesignerGraphNode::Selector { content: dc }
            && dc.name == content.name && filter_mirrors(dc.filter, content.filter)
            && dc.messages@.len() == 0,
    }
}

} // verus!
