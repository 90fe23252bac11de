//! The filter engine: compiles a filter tree once per resolution pass and
//! evaluates it against candidate nodes, top-down and short-circuiting.

use vstd::prelude::*;

use crate::errors::GraphError;
use crate::filter::{filter_valid, regex_is_match, AtomicFilter, Filter, FilterOperator, RegexHandle};
use crate::node::{spec_attribute, spec_node_name, GraphNode};

verus! {

/// A filter tree whose `Regex` atoms have been compiled.
///
/// Compilation happens once per filter tree, before any candidate node is
/// evaluated: a malformed pattern is reported fail-fast, never as "matches
/// nothing".
#[derive(Debug)]
pub enum CompiledFilter {
    Exact { field: String, value: String },
    Regex { field: String, regex: RegexHandle },
    And { children: Vec<CompiledFilter> },
    Or { children: Vec<CompiledFilter> },
}

/// The denotation of a source filter against one node: an atomic test reads
/// one attribute (a missing attribute is false, not an error), `And` is true
/// iff all children are true (vacuously true when empty), `Or` iff any child
/// is true (false when empty).
pub open spec fn filter_matches(f: Filter, n: GraphNode) -> bool
    decreases f,
{
    match f {
        Filter::Atomic(a) => match spec_attribute(n, a.field@) {
            Some(v) => match a.operator {
                FilterOperator::Exact => v == a.value@,
                FilterOperator::Regex => regex_is_match(a.value@, v),
            },
            None => false,
        },
        Filter::And { and } => forall|i: int|
            0 <= i < and@.len() ==> filter_matches(#[trigger] and@[i], n),
        Filter::Or { or } => exists|i: int|
            0 <= i < or@.len() && filter_matches(#[trigger] or@[i], n),
    }
}

/// The denotation of a compiled filter against one node.
pub open spec fn compiled_matches(c: CompiledFilter, n: GraphNode) -> bool
    decreases c,
{
    match c {
        CompiledFilter::Exact { field, value } => match spec_attribute(n, field@) {
            Some(v) => v == value@,
            None => false,
        },
        CompiledFilter::Regex { field, regex } => match spec_attribute(n, field@) {
            Some(v) => regex_is_match(regex.spec_pattern(), v),
            None => false,
        },
        CompiledFilter::And { children } => forall|i: int|
            0 <= i < children@.len() ==> compiled_matches(#[trigger] children@[i], n),
        CompiledFilter::Or { children } => exists|i: int|
            0 <= i < children@.len() && compiled_matches(#[trigger] children@[i], n),
    }
}

/// A compiled filter stands for a source filter when they have the same
/// shape, the same fields, and each compiled pattern is the source pattern.
pub open spec fn represents(c: CompiledFilter, f: Filter) -> bool
    decreases c,
{
    match c {
        CompiledFilter::Exact { field, value } => f matches Filter::Atomic(a)
            && a.operator == FilterOperator::Exact && field@ == a.field@ && value@ == a.value@,
        CompiledFilter::Regex { field, regex } => f matches Filter::Atomic(a)
            && a.operator == FilterOperator::Regex && field@ == a.field@
            && regex.spec_pattern() == a.value@,
        CompiledFilter::And { children } => f matches Filter::And { and }
            && children@.len() == and@.len() && (forall|i: int|
            0 <= i < children@.len() ==> represents(#[trigger] children@[i], and@[i])),
        CompiledFilter::Or { children } => f matches Filter::Or { or }
            && children@.len() == or@.len() && (forall|i: int|
            0 <= i < children@.len() ==> represents(#[trigger] children@[i], or@[i])),
    }
}

/// A compiled filter matches exactly the nodes its source filter denotes.
pub proof fn lemma_represents_matches(c: CompiledFilter, f: Filter, n: GraphNode)
    requires
        represents(c, f),
    ensures
        compiled_matches(c, n) == filter_matches(f, n),
    decreases c,
{
    match c {
        CompiledFilter::Exact { field, value } => {},
        CompiledFilter::Regex { field, regex } => {},
        CompiledFilter::And { children } => {
            let and = f->and;
            assert forall|i: int|
                #![trigger children@[i]]
                #![trigger and@[i]]
                0 <= i < children@.len() implies compiled_matches(children@[i], n)
                == filter_matches(and@[i], n) by {
                lemma_represents_matches(children@[i], and@[i], n);
            }
        },
        CompiledFilter::Or { children } => {
            let or = f->or;
            assert forall|i: int|
                #![trigger children@[i]]
                #![trigger or@[i]]
                0 <= i < children@.len() implies compiled_matches(children@[i], n)
                == filter_matches(or@[i], n) by {
                lemma_represents_matches(children@[i], or@[i], n);
            }
        },
    }
}

impl CompiledFilter {
    /// Compiles a filter tree: every `Regex` atom's pattern is handed to the
    /// regular-expression engine once, before any node is evaluated. Returns
    /// `InvalidFilterPattern` exactly when some pattern fails to compile.
    pub fn compile(f: &Filter) -> (r: Result<CompiledFilter, GraphError>)
        ensures
            r is Ok <==> filter_valid(*f),
            r matches Ok(c) ==> represents(c, *f),
            r matches Err(e) ==> e == GraphError::InvalidFilterPattern,
        decreases *f,
    {
        match f {
            Filter::Atomic(a) => match a.operator {
                FilterOperator::Exact => Ok(
                    CompiledFilter::Exact { field: a.field.clone(), value: a.value.clone() },
                ),
                FilterOperator::Regex => match RegexHandle::compile(&a.value) {
                    Some(h) => Ok(CompiledFilter::Regex { field: a.field.clone(), regex: h }),
                    None => Err(GraphError::InvalidFilterPattern),
                },
            },
            Filter::And { and } => {
                let mut children: Vec<CompiledFilter> = Vec::new();
                let mut i: usize = 0;
                while i < and.len()
                    invariant
                        *f == (Filter::And { and: *and }),
                        i <= and.len(),
                        children@.len() == i as int,
                        forall|j: int|
                            0 <= j < i as int ==> represents(#[trigger] children@[j], and@[j]),
                        forall|j: int| 0 <= j < i as int ==> filter_valid(#[trigger] and@[j]),
                    decreases and.len() - i,
                {
                    proof {
                        assert(decreases_to!(*f => (*f)->and));
                        assert(decreases_to!(*and => and@[i as int]));
                    }
                    match CompiledFilter::compile(&and[i]) {
                        Ok(c) => children.push(c),
                        Err(e) => {
                            proof {
                                assert(!filter_valid(and@[i as int]));
                                assert(!filter_valid(*f));
                            }
                            return Err(e);
                        },
                    }
                    i += 1;
                }
                Ok(CompiledFilter::And { children })
            },
            Filter::Or { or } => {
                let mut children: Vec<CompiledFilter> = Vec::new();
                let mut i: usize = 0;
                while i < or.len()
                    invariant
                        *f == (Filter::Or { or: *or }),
                        i <= or.len(),
                        children@.len() == i as int,
                        forall|j: int|
                            0 <= j < i as int ==> represents(#[trigger] children@[j], or@[j]),
                        forall|j: int| 0 <= j < i as int ==> filter_valid(#[trigger] or@[j]),
                    decreases or.len() - i,
                {
                    proof {
                        assert(decreases_to!(*f => (*f)->or));
                        assert(decreases_to!(*or => or@[i as int]));
                    }
                    match CompiledFilter::compile(&or[i]) {
                        Ok(c) => children.push(c),
                        Err(e) => {
                            proof {
                                assert(!filter_valid(or@[i as int]));
                                assert(!filter_valid(*f));
                            }
                            return Err(e);
                        },
                    }
                    i += 1;
                }
                Ok(CompiledFilter::Or { children })
            },
        }
    }
}

/// Evaluates a compiled filter against one node, top-down, short-circuiting
/// at the first false child of an `And` and the first true child of an `Or`.
pub fn matches(c: &CompiledFilter, n: &GraphNode) -> (r: bool)
    ensures
        r == compiled_matches(*c, *n),
    decreases *c,
{
    match c {
        CompiledFilter::Exact { field, value } => match n.get_attribute(field) {
            Some(v) => crate::strings::string_eq(v, value),
            None => false,
        },
        CompiledFilter::Regex { field, regex } => match n.get_attribute(field) {
            Some(v) => regex.is_match(v),
            None => false,
        },
        CompiledFilter::And { children } => {
            let mut i: usize = 0;
            while i < children.len()
                invariant
                    *c == (CompiledFilter::And { children: *children }),
                    i <= children.len(),
                    forall|j: int|
                        0 <= j < i as int ==> compiled_matches(#[trigger] children@[j], *n),
                decreases children.len() - i,
            {
                proof {
                    assert(decreases_to!(*c => (*c)->And_children));
                    assert(decreases_to!(*children => children@[i as int]));
                }
                if !matches(&children[i], n) {
                    return false;
                }
                i += 1;
            }
            true
        },
        CompiledFilter::Or { children } => {
            let mut i: usize = 0;
            while i < children.len()
                invariant
                    *c == (CompiledFilter::Or { children: *children }),
                    i <= children.len(),
                    forall|j: int|
                        0 <= j < i as int ==> !compiled_matches(#[trigger] children@[j], *n),
                decreases children.len() - i,
            {
                proof {
                    assert(decreases_to!(*c => (*c)->Or_children));
                    assert(decreases_to!(*children => children@[i as int]));
                }
                if matches(&children[i], n) {
                    return true;
                }
                i += 1;
            }
            false
        },
    }
}

/// The positions, in candidate order, of the nodes a compiled filter matches.
pub open spec fn selected_indices(c: CompiledFilter, nodes: Seq<GraphNode>) -> Seq<int>
    decreases nodes.len(),
{
    if nodes.len() == 0 {
        Seq::empty()
    } else {
        selected_indices(c, nodes.drop_last()) + if compiled_matches(c, nodes.last()) {
            seq![nodes.len() - 1]
        } else {
            Seq::empty()
        }
    }
}

/// Membership in the selected positions is exactly the filter's denotation,
/// and the positions come in increasing candidate order.
pub proof fn lemma_selected_indices_contains(c: CompiledFilter, nodes: Seq<GraphNode>, i: int)
    ensures
        selected_indices(c, nodes).contains(i) <==> 0 <= i < nodes.len() && compiled_matches(
            c,
            nodes[i],
        ),
    decreases nodes.len(),
{
    if nodes.len() > 0 {
        lemma_selected_indices_contains(c, nodes.drop_last(), i);
        if 0 <= i < nodes.len() - 1 {
            assert(nodes.drop_last()[i] == nodes[i]);
        }
        let s = selected_indices(c, nodes);
        let pre = selected_indices(c, nodes.drop_last());
        if compiled_matches(c, nodes.last()) {
            assert(s == pre + seq![nodes.len() - 1]);
            if pre.contains(i) {
                let k = choose|k: int| 0 <= k < pre.len() && pre[k] == i;
                assert(s[k] == i);
            }
            if i == nodes.len() - 1 {
                assert(s[s.len() - 1] == i);
            }
            if s.contains(i) && i != nodes.len() - 1 {
                let k = choose|k: int| 0 <= k < s.len() && s[k] == i;
                assert(k < pre.len() && pre[k] == i);
            }
        } else {
            assert(s =~= pre);
        }
    }
}

/// Applies a compiled filter to every candidate node and returns the matched
/// positions, preserving the candidate list's original relative order. This
/// is a pure function of `(filter, candidate nodes)`.
pub fn select_nodes(c: &CompiledFilter, nodes: &Vec<GraphNode>) -> (r: Vec<usize>)
    ensures
        r@.map_values(|u: usize| u as int) == selected_indices(*c, nodes@),
        forall|k: int| 0 <= k < r@.len() ==> (#[trigger] r@[k]) < nodes@.len(),
{
    let mut r: Vec<usize> = Vec::new();
    let mut i: usize = 0;
    while i < nodes.len()
        invariant
            i <= nodes.len(),
            r@.map_values(|u: usize| u as int) == selected_indices(*c, nodes@.take(i as int)),
            forall|k: int| 0 <= k < r@.len() ==> (#[trigger] r@[k]) < i,
        decreases nodes.len() - i,
    {
        let matched = matches(c, &nodes[i]);
        proof {
            let taken = nodes@.take(i as int + 1);
            assert(taken.drop_last() =~= nodes@.take(i as int));
            assert(taken.last() == nodes@[i as int]);
        }
        if matched {
            r.push(i);
            proof {
                assert(r@.map_values(|u: usize| u as int) =~= selected_indices(
                    *c,
                    nodes@.take(i as int),
                ) + seq![i as int]);
            }
        }
        i += 1;
    }
    proof {
        assert(nodes@.take(nodes@.len() as int) =~= nodes@);
    }
    r
}

/// The positions, in candidate order, of the nodes a source filter denotes.
pub open spec fn filter_selected_indices(f: Filter, nodes: Seq<GraphNode>) -> Seq<int>
    decreases nodes.len(),
{
    if nodes.len() == 0 {
        Seq::empty()
    } else {
        filter_selected_indices(f, nodes.drop_last()) + if filter_matches(f, nodes.last()) {
            seq![nodes.len() - 1]
        } else {
            Seq::empty()
        }
    }
}

/// A compiled filter selects exactly the positions its source filter
/// denotes.
pub proof fn lemma_represents_selected(c: CompiledFilter, f: Filter, nodes: Seq<GraphNode>)
    requires
        represents(c, f),
    ensures
        selected_indices(c, nodes) == filter_selected_indices(f, nodes),
    decreases nodes.len(),
{
    if nodes.len() > 0 {
        lemma_represents_selected(c, f, nodes.drop_last());
        lemma_represents_matches(c, f, nodes.last());
    }
}

/// Membership in the positions a source filter selects is exactly the
/// filter's denotation.
pub proof fn lemma_filter_selected_contains(f: Filter, nodes: Seq<GraphNode>, i: int)
    ensures
        filter_selected_indices(f, nodes).contains(i) <==> 0 <= i < nodes.len() && filter_matches(
            f,
            nodes[i],
        ),
    decreases nodes.len(),
{
    if nodes.len() > 0 {
        lemma_filter_selected_contains(f, nodes.drop_last(), i);
        if 0 <= i < nodes.len() - 1 {
            assert(nodes.drop_last()[i] == nodes[i]);
        }
        let s = filter_selected_indices(f, nodes);
        let pre = filter_selected_indices(f, nodes.drop_last());
        if filter_matches(f, nodes.last()) {
            assert(s == pre + seq![nodes.len() - 1]);
            if pre.contains(i) {
                let k = choose|k: int| 0 <= k < pre.len() && pre[k] == i;
                assert(s[k] == i);
            }
            if i == nodes.len() - 1 {
                assert(s[s.len() - 1] == i);
            }
            if s.contains(i) && i != nodes.len() - 1 {
                let k = choose|k: int| 0 <= k < s.len() && s[k] == i;
                assert(k < pre.len() && pre[k] == i);
            }
        } else {
            assert(s =~= pre);
        }
    }
}

/// A two-child conjunction selects exactly the intersection of the node
/// sets its two children select, keeping candidate order.
pub proof fn lemma_select_and_pair_is_intersection(
    f: Filter,
    a: Filter,
    b: Filter,
    nodes: Seq<GraphNode>,
    i: int,
)
    requires
        f is And,
        f->and@ =~= seq![a, b],
    ensures
        filter_selected_indices(f, nodes).contains(i) <==> filter_selected_indices(
            a,
            nodes,
        ).contains(i) && filter_selected_indices(b, nodes).contains(i),
{
    lemma_filter_selected_contains(f, nodes, i);
    lemma_filter_selected_contains(a, nodes, i);
    lemma_filter_selected_contains(b, nodes, i);
    if 0 <= i < nodes.len() {
        lemma_and_pair_is_intersection(f, a, b, nodes[i]);
    }
}

/// A two-child disjunction selects exactly the union of the node sets its
/// two children select, keeping candidate order.
pub proof fn lemma_select_or_pair_is_union(
    f: Filter,
    a: Filter,
    b: Filter,
    nodes: Seq<GraphNode>,
    i: int,
)
    requires
        f is Or,
        f->or@ =~= seq![a, b],
    ensures
        filter_selected_indices(f, nodes).contains(i) <==> filter_selected_indices(
            a,
            nodes,
        ).contains(i) || filter_selected_indices(b, nodes).contains(i),
{
    lemma_filter_selected_contains(f, nodes, i);
    lemma_filter_selected_contains(a, nodes, i);
    lemma_filter_selected_contains(b, nodes, i);
    if 0 <= i < nodes.len() {
        lemma_or_pair_is_union(f, a, b, nodes[i]);
    }
}

/// An empty conjunction matches every node.
pub proof fn lemma_and_empty_matches_all(f: Filter, n: GraphNode)
    requires
        f is And,
        f->and@.len() == 0,
    ensures
        filter_matches(f, n),
{
}

/// An empty disjunction matches no node.
pub proof fn lemma_or_empty_matches_none(f: Filter, n: GraphNode)
    requires
        f is Or,
        f->or@.len() == 0,
    ensures
        !filter_matches(f, n),
{
}

/// A two-child conjunction matches exactly the intersection of what its two
/// children match.
pub proof fn lemma_and_pair_is_intersection(f: Filter, a: Filter, b: Filter, n: GraphNode)
    requires
        f is And,
        f->and@ =~= seq![a, b],
    ensures
        filter_matches(f, n) <==> filter_matches(a, n) && filter_matches(b, n),
{
    let and = f->and;
    assert(and@[0] == a);
    assert(and@[1] == b);
    if filter_matches(a, n) && filter_matches(b, n) {
        assert forall|i: int| 0 <= i < and@.len() implies filter_matches(
            #[trigger] and@[i],
            n,
        ) by {
            if i == 0 {
            } else {
                assert(and@[i] == b);
            }
        }
    }
}

/// A two-child disjunction matches exactly the union of what its two
/// children match.
pub proof fn lemma_or_pair_is_union(f: Filter, a: Filter, b: Filter, n: GraphNode)
    requires
        f is Or,
        f->or@ =~= seq![a, b],
    ensures
        filter_matches(f, n) <==> filter_matches(a, n) || filter_matches(b, n),
{
    let or = f->or;
    assert(or@[0] == a);
    assert(or@[1] == b);
    if filter_matches(a, n) {
        assert(filter_matches(or@[0], n));
    }
    if filter_matches(b, n) {
        assert(filter_matches(or@[1], n));
    }
}

/// An atomic `Exact` filter on the `name` field matches exactly the plain
/// extension node with that name, regardless of its other attributes.
pub proof fn lemma_exact_name_filter(f: Filter, n: GraphNode)
    requires
        f matches Filter::Atomic(a) && a.operator == FilterOperator::Exact && a.field@ == "name"@,
    ensures
        filter_matches(f, n) <==> (f matches Filter::Atomic(a) && n is Extension
            && spec_node_name(n) == a.value@),
{
}

/// An atomic `Regex` filter on the `addon` field matches exactly the plain
/// extension nodes whose addon satisfies the pattern.
pub proof fn lemma_regex_addon_filter(f: Filter, n: GraphNode)
    requires
        f matches Filter::Atomic(a) && a.operator == FilterOperator::Regex && a.field@ == "addon"@,
    ensures
        filter_matches(f, n) <==> (f matches Filter::Atomic(a) && n matches GraphNode::Extension {
            content,
        } && regex_is_match(a.value@, content.addon@)),
{
    reveal_strlit("name");
    reveal_strlit("addon");
    assert("name"@.len() == 4);
    assert("addon"@.len() == 5);
}

} // verus!
