//! The selector resolver: for every selector node of a designer graph, in
//! node-list order, computes the node set its filter denotes and replaces
//! its `messages` list with the message bindings those nodes expose.
//!
//! The whole pass is a pure transform of the `(nodes, filters, connections)`
//! snapshot: resolving the same snapshot twice yields identical lists,
//! duplicates and order included.

use vstd::prelude::*;

use crate::designer::{DesignerGraph, DesignerGraphNode, DesignerSelectorNode};
use crate::engine::{filter_matches, filter_selected_indices, lemma_represents_selected, select_nodes, CompiledFilter};
use crate::errors::GraphError;
use crate::filter::{filter_valid, Filter};
use crate::flow::{all_records, build_index, spec_records_for_node, MessageFlowIndex};
use crate::graph::{Graph, GraphConnection};
use crate::message::{DesignerSelectorMessageInfo, MessageRecordView};
use crate::node::{spec_node_name, GraphNode, SelectorNode};
use crate::strings::string_eq;

verus! {

/// The connection list of a graph; empty when the graph declares none.
pub open spec fn spec_graph_connections(g: Graph) -> Seq<GraphConnection> {
    match g.connections {
        Some(c) => c@,
        None => Seq::empty(),
    }
}

/// The filter of the first selector node with the given name; `None` when
/// the graph has no selector of that name. A non-selector node sharing the
/// name is passed over.
pub open spec fn find_selector_filter(nodes: Seq<GraphNode>, name: Seq<char>) -> Option<Filter>
    decreases nodes.len(),
{
    if nodes.len() == 0 {
        None
    } else {
        match nodes[0] {
            GraphNode::Selector { content } => if content.name@ == name {
                Some(content.filter)
            } else {
                find_selector_filter(nodes.skip(1), name)
            },
            _ => find_selector_filter(nodes.skip(1), name),
        }
    }
}

/// The records of the nodes at the given positions, concatenated in
/// position order: each node contributes the index records of its name.
pub open spec fn messages_for_indices(
    nodes: Seq<GraphNode>,
    records: Seq<MessageRecordView>,
    idxs: Seq<int>,
) -> Seq<MessageRecordView>
    decreases idxs.len(),
{
    if idxs.len() == 0 {
        Seq::empty()
    } else {
        messages_for_indices(nodes, records, idxs.drop_last()) + spec_records_for_node(
            records,
            spec_node_name(nodes[idxs.last()]),
        )
    }
}

/// The message list a valid filter resolves to against a graph snapshot:
/// the records of the matched nodes, in matched-node order, then per-node
/// record order; duplicates preserved.
pub open spec fn resolved_messages(f: Filter, g: Graph) -> Seq<MessageRecordView> {
    messages_for_indices(
        g.nodes@,
        all_records(spec_graph_connections(g)),
        filter_selected_indices(f, g.nodes@),
    )
}

/// What one resolution pass leaves in a selector's `messages` list: the
/// resolved list when the graph has a selector of that name with a valid
/// filter; the list untouched otherwise.
pub open spec fn spec_selector_outcome(oc: DesignerSelectorNode, g: Graph) -> Seq<
    MessageRecordView,
> {
    match find_selector_filter(g.nodes@, oc.name@) {
        Some(f) => if filter_valid(f) {
            resolved_messages(f, g)
        } else {
            oc.messages.deep_view()
        },
        None => oc.messages.deep_view(),
    }
}

/// How one resolution pass transforms one designer node: a selector keeps
/// its name and filter and has its `messages` list replaced wholesale; any
/// other node is untouched.
pub open spec fn populated_node(oldn: DesignerGraphNode, newn: DesignerGraphNode, g: Graph) -> bool {
    match oldn {
        DesignerGraphNode::Selector { content: oc } => newn matches DesignerGraphNode::Selector {
            content: nc,
        } && nc.name == oc.name && nc.filter == oc.filter && nc.messages.deep_view()
            == spec_selector_outcome(oc, g),
        _ => newn == oldn,
    }
}

/// One per-selector failure of a resolution pass.
#[derive(Debug)]
pub struct SelectorResolutionIssue {
    /// The selector whose resolution failed.
    pub selector_name: String,
    /// Why it failed.
    pub error: GraphError,
}

/// The mathematical value of a per-selector failure.
pub struct SelectorIssueView {
    pub selector_name: Seq<char>,
    pub error: GraphError,
}

impl View for SelectorResolutionIssue {
    type V = SelectorIssueView;

    open spec fn view(&self) -> SelectorIssueView {
        SelectorIssueView { selector_name: self.selector_name@, error: self.error }
    }
}

impl DeepView for SelectorResolutionIssue {
    type V = SelectorIssueView;

    open spec fn deep_view(&self) -> SelectorIssueView {
        self@
    }
}

/// The failures one resolution pass reports, in designer node order: one
/// `InvalidFilterPattern` per selector whose graph filter has a pattern the
/// regular-expression engine rejects. Structural failures are collected,
/// not fatal: the pass still resolves every other selector.
pub open spec fn spec_resolution_issues(nodes: Seq<DesignerGraphNode>, g: Graph) -> Seq<
    SelectorIssueView,
>
    decreases nodes.len(),
{
    if nodes.len() == 0 {
        Seq::empty()
    } else {
        spec_resolution_issues(nodes.drop_last(), g) + match nodes.last() {
            DesignerGraphNode::Selector { content } => match find_selector_filter(
                g.nodes@,
                content.name@,
            ) {
                Some(f) => if !filter_valid(f) {
                    seq![
                        SelectorIssueView {
                            selector_name: content.name@,
                            error: GraphError::InvalidFilterPattern,
                        },
                    ]
                } else {
                    Seq::empty()
                },
                None => Seq::empty(),
            },
            _ => Seq::empty(),
        }
    }
}

/// Resolution is deterministic: two passes over the same snapshot leave
/// the same node with message lists that are equal element for element,
/// duplicate multiplicities and order included, and leave any non-selector
/// node exactly as it was.
pub proof fn lemma_resolution_deterministic(
    o: DesignerGraphNode,
    a: DesignerGraphNode,
    b: DesignerGraphNode,
    g: Graph,
)
    requires
        populated_node(o, a, g),
        populated_node(o, b, g),
    ensures
        o is Selector ==> (a matches DesignerGraphNode::Selector { content: ac }
            && b matches DesignerGraphNode::Selector { content: bc }
            && ac.messages.deep_view() == bc.messages.deep_view() && ac.name == bc.name
            && ac.filter == bc.filter),
        !(o is Selector) ==> a == b,
{
}

/// What two resolution outcomes of one node must share: a selector's
/// message lists are equal element for element; any other node is the very
/// same value.
pub open spec fn resolution_agrees(
    o: DesignerGraphNode,
    x: DesignerGraphNode,
    y: DesignerGraphNode,
) -> bool {
    if o is Selector {
        &&& x matches DesignerGraphNode::Selector { content: cx }
        &&& y matches DesignerGraphNode::Selector { content: cy }
        &&& cx.messages.deep_view() == cy.messages.deep_view()
    } else {
        x == y
    }
}

/// Whole-pass determinism: two passes over the same `(nodes, filters,
/// connections)` snapshot agree on every node — byte-identical selector
/// message lists, duplicate multiplicities and order included.
pub proof fn lemma_pass_deterministic(
    o: Seq<DesignerGraphNode>,
    a: Seq<DesignerGraphNode>,
    b: Seq<DesignerGraphNode>,
    g: Graph,
)
    requires
        a.len() == o.len(),
        b.len() == o.len(),
        forall|k: int| 0 <= k < o.len() ==> populated_node(o[k], #[trigger] a[k], g),
        forall|k: int| 0 <= k < o.len() ==> populated_node(o[k], #[trigger] b[k], g),
    ensures
        forall|k: int| 0 <= k < o.len() ==> #[trigger] resolution_agrees(o[k], a[k], b[k]),
{
    assert forall|k: int| 0 <= k < o.len() implies #[trigger] resolution_agrees(
        o[k],
        a[k],
        b[k],
    ) by {
        lemma_resolution_deterministic(o[k], a[k], b[k], g);
    }
}

/// Resolution is idempotent: a second pass over an unchanged snapshot
/// computes the same `messages` list the first pass wrote, since a pass
/// replaces the list wholesale and reads only the snapshot, never the list.
pub proof fn lemma_resolution_idempotent(
    o: DesignerGraphNode,
    a: DesignerGraphNode,
    b: DesignerGraphNode,
    g: Graph,
)
    requires
        populated_node(o, a, g),
        populated_node(a, b, g),
    ensures
        o is Selector ==> (b matches DesignerGraphNode::Selector { content: bc }
            && a matches DesignerGraphNode::Selector { content: ac }
            && bc.messages.deep_view() == ac.messages.deep_view()),
        !(o is Selector) ==> b == a,
{
}

/// A selector whose filter matches no node resolves to the empty message
/// list — not an error.
pub proof fn lemma_no_match_resolves_empty(f: Filter, g: Graph)
    requires
        forall|i: int| 0 <= i < g.nodes@.len() ==> !filter_matches(f, #[trigger] g.nodes@[i]),
    ensures
        resolved_messages(f, g) == Seq::<MessageRecordView>::empty(),
{
    lemma_unmatched_selects_none(f, g.nodes@);
}

/// A filter that matches none of the candidates selects no position.
proof fn lemma_unmatched_selects_none(f: Filter, nodes: Seq<GraphNode>)
    requires
        forall|i: int| 0 <= i < nodes.len() ==> !filter_matches(f, #[trigger] nodes[i]),
    ensures
        filter_selected_indices(f, nodes) == Seq::<int>::empty(),
    decreases nodes.len(),
{
    if nodes.len() > 0 {
        assert(forall|i: int|
            0 <= i < nodes.drop_last().len() ==> nodes.drop_last()[i] == nodes[i]);
        lemma_unmatched_selects_none(f, nodes.drop_last());
        assert(!filter_matches(f, nodes.last()));
        assert(filter_selected_indices(f, nodes) =~= Seq::<int>::empty());
    }
}

/// Finds the first selector node with the given name.
#[verifier::loop_isolation(false)]
fn find_selector_node<'a>(nodes: &'a Vec<GraphNode>, name: &String) -> (r: Option<&'a SelectorNode>)
    ensures
        match find_selector_filter(nodes@, name@) {
            Some(f) => r matches Some(sn) && sn.filter == f && sn.name@ == name@,
            None => r is None,
        },
{
    let mut i: usize = 0;
    proof {
        assert(nodes@.skip(0) =~= nodes@);
    }
    while i < nodes.len()
        invariant
            i <= nodes.len(),
            find_selector_filter(nodes@.skip(i as int), name@) == find_selector_filter(
                nodes@,
                name@,
            ),
        decreases nodes.len() - i,
    {
        match &nodes[i] {
            GraphNode::Selector { content } => {
                if string_eq(&content.name, name) {
                    proof {
                        assert(nodes@.skip(i as int)[0] == nodes@[i as int]);
                    }
                    return Some(content);
                }
            },
            _ => {},
        }
        proof {
            assert(nodes@.skip(i as int)[0] == nodes@[i as int]);
            assert(nodes@.skip(i as int).skip(1) =~= nodes@.skip(i as int + 1));
        }
        i += 1;
    }
    proof {
        assert(nodes@.skip(nodes@.len() as int) =~= Seq::<GraphNode>::empty());
    }
    None
}

/// Gathers the index records of the nodes at the given positions, in
/// position order.
#[verifier::loop_isolation(false)]
fn gather_messages(
    graph_nodes: &Vec<GraphNode>,
    index: &MessageFlowIndex,
    idxs: &Vec<usize>,
) -> (r: Vec<DesignerSelectorMessageInfo>)
    requires
        forall|k: int| 0 <= k < idxs@.len() ==> (#[trigger] idxs@[k]) < graph_nodes@.len(),
    ensures
        r.deep_view() == messages_for_indices(
            graph_nodes@,
            index@,
            idxs@.map_values(|u: usize| u as int),
        ),
{
    let ghost ints = idxs@.map_values(|u: usize| u as int);
    let mut r: Vec<DesignerSelectorMessageInfo> = Vec::new();
    let mut t: usize = 0;
    while t < idxs.len()
        invariant
            t <= idxs.len(),
            r.deep_view() == messages_for_indices(graph_nodes@, index@, ints.take(t as int)),
        decreases idxs.len() - t,
    {
        let node_name = graph_nodes[idxs[t]].get_name();
        let mut found = index.records_for_node(node_name);
        r.append(&mut found);
        proof {
            assert(ints.take(t as int + 1).drop_last() =~= ints.take(t as int));
            assert(ints.take(t as int + 1).last() == ints[t as int]);
            assert(r.deep_view() =~= messages_for_indices(
                graph_nodes@,
                index@,
                ints.take(t as int + 1),
            ));
        }
        t += 1;
    }
    proof {
        assert(ints.take(ints.len() as int) =~= ints);
    }
    r
}

/// Populates the `messages` field of every selector node of a designer
/// graph, in node-list order, from a graph snapshot: the message-flow index
/// is built once from the snapshot's connections and reused for every
/// selector; each selector whose filter compiles has its list replaced by
/// the resolved records; a selector whose filter carries a rejected pattern
/// is reported fail-fast — before any candidate is evaluated — and left
/// untouched, never silently resolved to "matches nothing".
#[verifier::loop_isolation(false)]
pub fn populate_selector_messages_info(designer_graph: &mut DesignerGraph, graph: &Graph) -> (issues:
    Vec<SelectorResolutionIssue>)
    ensures
        final(designer_graph).connections == old(designer_graph).connections,
        final(designer_graph).nodes@.len() == old(designer_graph).nodes@.len(),
        forall|k: int|
            0 <= k < old(designer_graph).nodes@.len() ==> populated_node(
                old(designer_graph).nodes@[k],
                #[trigger] final(designer_graph).nodes@[k],
                *graph,
            ),
        issues.deep_view() == spec_resolution_issues(old(designer_graph).nodes@, *graph),
{
    let index: MessageFlowIndex = match &graph.connections {
        Some(conns) => build_index(conns),
        None => {
            let r = MessageFlowIndex { records: Vec::new() };
            proof {
                assert(r@ =~= all_records(spec_graph_connections(*graph)));
            }
            r
        },
    };
    proof {
        assert(index@ == all_records(spec_graph_connections(*graph)));
    }
    let mut issues: Vec<SelectorResolutionIssue> = Vec::new();
    let n = designer_graph.nodes.len();
    let mut k: usize = 0;
    while k < n
        invariant
            k <= n,
            n == old(designer_graph).nodes@.len(),
            designer_graph.nodes@.len() == n,
            designer_graph.connections == old(designer_graph).connections,
            index@ == all_records(spec_graph_connections(*graph)),
            forall|j: int|
                0 <= j < k as int ==> populated_node(
                    old(designer_graph).nodes@[j],
                    #[trigger] designer_graph.nodes@[j],
                    *graph,
                ),
            forall|j: int|
                k as int <= j < n ==> (#[trigger] designer_graph.nodes@[j]) == old(
                    designer_graph,
                ).nodes@[j],
            issues.deep_view() == spec_resolution_issues(
                old(designer_graph).nodes@.take(k as int),
                *graph,
            ),
        decreases n - k,
    {
        let mut selector_name: Option<String> = None;
        match &designer_graph.nodes[k] {
            DesignerGraphNode::Selector { content } => {
                selector_name = Some(content.name.clone());
            },
            _ => {},
        }
        match selector_name {
            Some(name) => {
                match find_selector_node(&graph.nodes, &name) {
                    Some(sel) => {
                        match CompiledFilter::compile(&sel.filter) {
                            Ok(c) => {
                                let idxs = select_nodes(&c, &graph.nodes);
                                proof {
                                    lemma_represents_selected(c, sel.filter, graph.nodes@);
                                }
                                let msgs = gather_messages(&graph.nodes, &index, &idxs);
                                let node_mut = &mut designer_graph.nodes[k];
                                match node_mut {
                                    DesignerGraphNode::Selector { content } => {
                                        content.messages = msgs;
                                    },
                                    _ => {},
                                }
                            },
                            Err(e) => {
                                issues.push(
                                    SelectorResolutionIssue { selector_name: name, error: e },
                                );
                            },
                        }
                    },
                    None => {},
                }
            },
            None => {},
        }
        proof {
            let oldnodes = old(designer_graph).nodes@;
            assert(oldnodes.take(k as int + 1).drop_last() =~= oldnodes.take(k as int));
            assert(oldnodes.take(k as int + 1).last() == oldnodes[k as int]);
            assert(populated_node(oldnodes[k as int], designer_graph.nodes@[k as int], *graph));
            assert(issues.deep_view() =~= spec_resolution_issues(
                oldnodes.take(k as int + 1),
                *graph,
            ));
        }
        k += 1;
    }
    proof {
        assert(old(designer_graph).nodes@.take(n as int) =~= old(designer_graph).nodes@);
    }
    issues
}

} // verus!
