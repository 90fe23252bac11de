//! The node model: a graph participant is a plain extension node, an
//! import-by-reference subgraph node, or a selector node, plus the attribute
//! surface a filter is evaluated against.

use vstd::prelude::*;
use vstd::string::*;

use crate::filter::Filter;

verus! {

#[verifier::external_type_specification]
#[verifier::external_body]
pub struct ExValue(serde_json::Value);

/// A plain processing node backed by an addon.
#[derive(Debug)]
pub struct ExtensionNode {
    pub name: String,
    pub addon: String,
    pub extension_group: Option<String>,
    pub app: Option<String>,
    /// Opaque configuration payload; never read by the resolver.
    pub property: Option<serde_json::Value>,
}

/// Where a subgraph node finds the graph it imports.
#[derive(Debug)]
pub struct GraphReference {
    pub import_uri: String,
}

/// A node that stands for another graph, imported by reference.
#[derive(Debug)]
pub struct SubgraphNode {
    pub name: String,
    pub property: Option<serde_json::Value>,
    pub graph: GraphReference,
}

/// A node whose membership is computed from a filter, not declared.
#[derive(Debug)]
pub struct SelectorNode {
    pub name: String,
    pub filter: Filter,
}

/// A participant in an extension graph.
#[derive(Debug)]
pub enum GraphNode {
    Extension { content: ExtensionNode },
    Subgraph { content: SubgraphNode },
    Selector { content: SelectorNode },
}

/// The name of a node, over any of the three variants.
pub open spec fn spec_node_name(n: GraphNode) -> Seq<char> {
    match n {
        GraphNode::Extension { content } => content.name@,
        GraphNode::Subgraph { content } => content.name@,
        GraphNode::Selector { content } => content.name@,
    }
}

/// The attribute surface a filter reads: only a plain extension node exposes
/// attributes (`name`, `addon`, and the optional `extension_group` and
/// `app`); selector and subgraph nodes are attribute-opaque. A missing
/// attribute is `None`, not an error.
pub open spec fn spec_attribute(n: GraphNode, field: Seq<char>) -> Option<Seq<char>> {
    match n {
        GraphNode::Extension { content } => if field == "name"@ {
            Some(content.name@)
        } else if field == "addon"@ {
            Some(content.addon@)
        } else if field == "extension_group"@ {
            match content.extension_group {
                Some(g) => Some(g@),
                None => None,
            }
        } else if field == "app"@ {
            match content.app {
                Some(a) => Some(a@),
                None => None,
            }
        } else {
            None
        },
        GraphNode::Subgraph { content } => None,
        GraphNode::Selector { content } => None,
    }
}

/// The attribute pairs a node exposes, in the order `name`, `addon`,
/// `extension_group`, `app`, the absent optional fields omitted rather
/// than filled with empty placeholders; empty for selector and
/// subgraph-reference nodes.
pub open spec fn spec_attribute_pairs(n: GraphNode) -> Seq<(Seq<char>, Seq<char>)> {
    match n {
        GraphNode::Extension { content } => seq![("name"@, content.name@), ("addon"@, content.addon@)]
            + (match content.extension_group {
            Some(g) => seq![("extension_group"@, g@)],
            None => Seq::empty(),
        }) + (match content.app {
            Some(a) => seq![("app"@, a@)],
            None => Seq::empty(),
        }),
        GraphNode::Subgraph { content } => Seq::empty(),
        GraphNode::Selector { content } => Seq::empty(),
    }
}

/// The pair list and the attribute lookup agree: a field looks up to a
/// value exactly when the pair list carries that field with that value.
pub proof fn lemma_attribute_pairs_agree(n: GraphNode, field: Seq<char>)
    ensures
        match spec_attribute(n, field) {
            Some(v) => spec_attribute_pairs(n).contains((field, v)),
            None => forall|v: Seq<char>| !spec_attribute_pairs(n).contains((field, v)),
        },
{
    reveal_strlit("name");
    reveal_strlit("addon");
    reveal_strlit("extension_group");
    reveal_strlit("app");
    assert("name"@.len() == 4);
    assert("addon"@.len() == 5);
    assert("extension_group"@.len() == 15);
    assert("app"@.len() == 3);
    let pairs = spec_attribute_pairs(n);
    match n {
        GraphNode::Extension { content } => {
            match spec_attribute(n, field) {
                Some(v) => {
                    if field == "name"@ {
                        assert(pairs[0] == ("name"@, content.name@));
                    } else if field == "addon"@ {
                        assert(pairs[1] == ("addon"@, content.addon@));
                    } else if field == "extension_group"@ {
                        assert(pairs[2] == ("extension_group"@, v));
                    } else {
                        let k: int = if content.extension_group is Some {
                            3
                        } else {
                            2
                        };
                        assert(pairs[k] == ("app"@, v));
                    }
                },
                None => {
                    assert forall|v: Seq<char>| !pairs.contains((field, v)) by {
                        if pairs.contains((field, v)) {
                            let k = choose|k: int|
                                0 <= k < pairs.len() && pairs[k] == (field, v);
                            assert(pairs[k].0 == "name"@ || pairs[k].0 == "addon"@ || pairs[k].0
                                == "extension_group"@ || pairs[k].0 == "app"@);
                        }
                    }
                },
            }
        },
        GraphNode::Subgraph { content } => {
            assert(pairs.len() == 0);
        },
        GraphNode::Selector { content } => {
            assert(pairs.len() == 0);
        },
    }
}

impl GraphNode {
    /// The attribute surface of the node, as field-and-value pairs.
    pub fn attributes_of(&self) -> (r: Vec<(String, String)>)
        ensures
            r.deep_view() == spec_attribute_pairs(*self),
    {
        let mut r: Vec<(String, String)> = Vec::new();
        match self {
            GraphNode::Extension { content } => {
                r.push((String::from_str("name"), content.name.clone()));
                r.push((String::from_str("addon"), content.addon.clone()));
                match &content.extension_group {
                    Some(g) => r.push((String::from_str("extension_group"), g.clone())),
                    None => {},
                }
                match &content.app {
                    Some(a) => r.push((String::from_str("app"), a.clone())),
                    None => {},
                }
            },
            GraphNode::Subgraph { content } => {},
            GraphNode::Selector { content } => {},
        }
        proof {
            assert(r.deep_view() =~~= spec_attribute_pairs(*self));
        }
        r
    }

    /// The name of the node regardless of its type.
    pub fn get_name(&self) -> (r: &str)
        ensures
            r@ == spec_node_name(*self),
    {
        match self {
            GraphNode::Extension { content } => content.name.as_str(),
            GraphNode::Subgraph { content } => content.name.as_str(),
            GraphNode::Selector { content } => content.name.as_str(),
        }
    }

    /// The selector content of this node, when it is a selector.
    pub fn as_selector_node(&self) -> (r: Option<&SelectorNode>)
        ensures
            match *self {
                GraphNode::Selector { content } => r matches Some(c) && *c == content,
                _ => r is None,
            },
    {
        match self {
            GraphNode::Selector { content } => Some(content),
            _ => None,
        }
    }

    /// The attribute value the node exposes under `field`, if any.
    pub fn get_attribute(&self, field: &String) -> (r: Option<&String>)
        ensures
            match spec_attribute(*self, field@) {
                Some(v) => r matches Some(s) && s@ == v,
                None => r is None,
            },
    {
        match self {
            GraphNode::Extension { content } => {
                if crate::strings::string_eq_str(field, "name") {
                    Some(&content.name)
                } else if crate::strings::string_eq_str(field, "addon") {
                    Some(&content.addon)
                } else if crate::strings::string_eq_str(field, "extension_group") {
                    content.extension_group.as_ref()
                } else if crate::strings::string_eq_str(field, "app") {
                    content.app.as_ref()
                } else {
                    None
                }
            },
            GraphNode::Subgraph { content } => None,
            GraphNode::Selector { content } => None,
        }
    }
}

} // verus!
