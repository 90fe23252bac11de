//! Node classification, the attribute surface, and the graph cache.

use std::collections::HashMap;

use ten_manager::cache::{get_nodes_in_graph, GraphInfo};
use ten_manager::designer::{DesignerFilter, DesignerGraphNode};
use ten_manager::errors::GraphError;
use ten_manager::filter::{AtomicFilter, Filter, FilterOperator};
use ten_manager::graph::{classify, Graph, RawGraphNode};
use ten_manager::node::{ExtensionNode, GraphNode};

fn raw(kind: &str) -> RawGraphNode {
    RawGraphNode {
        kind: kind.to_string(),
        name: "n".to_string(),
        addon: Some("a".to_string()),
        extension_group: None,
        app: None,
        property: None,
        import_uri: Some("file://g.json".to_string()),
        filter: Some(Filter::And { and: Vec::new() }),
    }
}

#[test]
fn classify_recognizes_the_three_shapes() {
    match classify(raw("extension")) {
        Ok(GraphNode::Extension { content }) => {
            assert_eq!(content.name, "n");
            assert_eq!(content.addon, "a");
        }
        _ => panic!("expected an extension node"),
    }
    match classify(raw("subgraph")) {
        Ok(GraphNode::Subgraph { content }) => {
            assert_eq!(content.graph.import_uri, "file://g.json");
        }
        _ => panic!("expected a subgraph node"),
    }
    match classify(raw("selector")) {
        Ok(GraphNode::Selector { content }) => {
            assert_eq!(content.name, "n");
            assert!(matches!(content.filter, Filter::And { .. }));
        }
        _ => panic!("expected a selector node"),
    }
}

#[test]
fn classify_rejects_unknown_or_incomplete_shapes() {
    assert_eq!(classify(raw("widget")).unwrap_err(), GraphError::UnrecognizedKind);
    assert_eq!(classify(raw("Extension")).unwrap_err(), GraphError::UnrecognizedKind);
    let mut no_addon = raw("extension");
    no_addon.addon = None;
    assert_eq!(classify(no_addon).unwrap_err(), GraphError::UnrecognizedKind);
    let mut no_uri = raw("subgraph");
    no_uri.import_uri = None;
    assert_eq!(classify(no_uri).unwrap_err(), GraphError::UnrecognizedKind);
    let mut no_filter = raw("selector");
    no_filter.filter = None;
    assert_eq!(classify(no_filter).unwrap_err(), GraphError::UnrecognizedKind);
}

#[test]
fn attributes_of_plain_node_and_opaque_nodes() {
    let node = GraphNode::Extension {
        content: ExtensionNode {
            name: "ext_1".to_string(),
            addon: "addon_a".to_string(),
            extension_group: Some("g".to_string()),
            app: None,
            property: None,
        },
    };
    assert_eq!(node.get_name(), "ext_1");
    assert_eq!(node.get_attribute(&"name".to_string()), Some(&"ext_1".to_string()));
    assert_eq!(node.get_attribute(&"addon".to_string()), Some(&"addon_a".to_string()));
    assert_eq!(node.get_attribute(&"extension_group".to_string()), Some(&"g".to_string()));
    // The optional app attribute is absent, not omitted as an empty string.
    assert_eq!(node.get_attribute(&"app".to_string()), None);
    assert_eq!(node.get_attribute(&"other".to_string()), None);

    // The pair view of the same surface: present fields only, in order.
    assert_eq!(
        node.attributes_of(),
        vec![
            ("name".to_string(), "ext_1".to_string()),
            ("addon".to_string(), "addon_a".to_string()),
            ("extension_group".to_string(), "g".to_string()),
        ]
    );

    let selector = GraphNode::Selector {
        content: ten_manager::node::SelectorNode {
            name: "sel".to_string(),
            filter: Filter::And { and: Vec::new() },
        },
    };
    assert!(selector.attributes_of().is_empty());
    assert_eq!(selector.get_attribute(&"name".to_string()), None);
}

#[test]
fn graph_cache_lookup_and_graph_not_found() {
    let graph = Graph { nodes: vec![], connections: None };
    let mut cache: HashMap<u128, GraphInfo> = HashMap::new();
    cache.insert(7, GraphInfo { graph });
    assert!(get_nodes_in_graph(7, &cache).unwrap().is_empty());
    assert_eq!(get_nodes_in_graph(8, &cache).unwrap_err(), GraphError::GraphNotFound);
    assert_eq!(
        get_nodes_in_graph(8, &cache).unwrap_err().describe(),
        "graph not found"
    );
}

#[test]
fn designer_mirror_keeps_names_and_filters() {
    let node = GraphNode::Selector {
        content: ten_manager::node::SelectorNode {
            name: "sel".to_string(),
            filter: Filter::Or {
                or: vec![Filter::Atomic(AtomicFilter {
                    field: "name".to_string(),
                    operator: FilterOperator::Regex,
                    value: "^e.*".to_string(),
                })],
            },
        },
    };
    let designer = DesignerGraphNode::from_graph_node(node);
    assert_eq!(designer.get_name(), "sel");
    match &designer {
        DesignerGraphNode::Selector { content } => {
            assert!(content.messages.is_empty());
            match &content.filter {
                DesignerFilter::Or { or } => {
                    assert_eq!(or.len(), 1);
                    match &or[0] {
                        DesignerFilter::Atomic(a) => {
                            assert_eq!(a.field, "name");
                            assert_eq!(a.value, "^e.*");
                            assert!(matches!(
                                a.operator,
                                ten_manager::designer::DesignerFilterOperator::Regex
                            ));
                        }
                        _ => panic!("expected an atomic child"),
                    }
                }
                _ => panic!("expected an or filter"),
            }
        }
        _ => panic!("expected a selector node"),
    }
}
