//! End-to-end selector resolution over a hand-built graph snapshot.

use ten_manager::designer::{DesignerGraph, DesignerGraphNode};
use ten_manager::filter::{AtomicFilter, Filter, FilterOperator};
use ten_manager::graph::{Graph, GraphConnection, GraphLoc, GraphMessageFlow};
use ten_manager::message::{MsgDirection, MsgType};
use ten_manager::node::{ExtensionNode, GraphNode, SelectorNode};
use ten_manager::resolve::populate_selector_messages_info;

fn ext_node(name: &str, addon: &str) -> GraphNode {
    GraphNode::Extension {
        content: ExtensionNode {
            name: name.to_string(),
            addon: addon.to_string(),
            extension_group: None,
            app: None,
            property: None,
        },
    }
}

fn exact(field: &str, value: &str) -> Filter {
    Filter::Atomic(AtomicFilter {
        field: field.to_string(),
        operator: FilterOperator::Exact,
        value: value.to_string(),
    })
}

fn loc(extension: &str) -> GraphLoc {
    GraphLoc {
        app: None,
        extension: Some(extension.to_string()),
        subgraph: None,
        selector: None,
    }
}

fn out_flow(names: &[&str]) -> GraphMessageFlow {
    GraphMessageFlow {
        name: None,
        names: Some(names.iter().map(|n| n.to_string()).collect()),
        source: Vec::new(),
        dest: vec![loc("sink")],
    }
}

/// The graph of the end-to-end scenario: three plain nodes with declared
/// flows and two selectors.
fn scenario_graph() -> Graph {
    let nodes = vec![
        ext_node("ext_1", "addon_a"),
        ext_node("ext_2", "addon_b"),
        ext_node("ext_3", "addon_c"),
        GraphNode::Selector {
            content: SelectorNode {
                name: "selector_1_and_2".to_string(),
                filter: Filter::Or {
                    or: vec![exact("name", "ext_1"), exact("name", "ext_2")],
                },
            },
        },
        GraphNode::Selector {
            content: SelectorNode {
                name: "selector_all".to_string(),
                filter: Filter::Or {
                    or: vec![
                        exact("name", "ext_1"),
                        exact("name", "ext_2"),
                        exact("name", "ext_3"),
                    ],
                },
            },
        },
    ];
    let connections = vec![
        GraphConnection {
            loc: loc("ext_1"),
            cmd: Some(vec![out_flow(&["command_a", "command_b"])]),
            data: Some(vec![out_flow(&["data_x"])]),
            audio_frame: None,
            video_frame: None,
        },
        GraphConnection {
            loc: loc("ext_2"),
            cmd: None,
            data: Some(vec![out_flow(&["data_y"])]),
            audio_frame: Some(vec![out_flow(&["audio_stream_1"])]),
            video_frame: None,
        },
        GraphConnection {
            loc: loc("ext_3"),
            cmd: None,
            data: Some(vec![out_flow(&["data_z"])]),
            audio_frame: None,
            video_frame: Some(vec![out_flow(&["video_stream_1", "video_stream_2"])]),
        },
    ];
    Graph { nodes, connections: Some(connections) }
}

fn designer_graph_of(graph: &Graph) -> DesignerGraph {
    let mut nodes = Vec::new();
    for node in &graph.nodes {
        let copy = match node {
            GraphNode::Extension { content } => GraphNode::Extension {
                content: ExtensionNode {
                    name: content.name.clone(),
                    addon: content.addon.clone(),
                    extension_group: content.extension_group.clone(),
                    app: content.app.clone(),
                    property: None,
                },
            },
            GraphNode::Selector { content } => GraphNode::Selector {
                content: SelectorNode {
                    name: content.name.clone(),
                    filter: clone_filter(&content.filter),
                },
            },
            GraphNode::Subgraph { .. } => panic!("no subgraph in this scenario"),
        };
        nodes.push(DesignerGraphNode::from_graph_node(copy));
    }
    DesignerGraph { nodes, connections: Vec::new() }
}

fn clone_filter(f: &Filter) -> Filter {
    match f {
        Filter::Atomic(a) => Filter::Atomic(AtomicFilter {
            field: a.field.clone(),
            operator: a.operator,
            value: a.value.clone(),
        }),
        Filter::And { and } => Filter::And { and: and.iter().map(clone_filter).collect() },
        Filter::Or { or } => Filter::Or { or: or.iter().map(clone_filter).collect() },
    }
}

fn selector_messages<'a>(
    dg: &'a DesignerGraph,
    name: &str,
) -> &'a Vec<ten_manager::message::DesignerSelectorMessageInfo> {
    for node in &dg.nodes {
        if let DesignerGraphNode::Selector { content } = node {
            if content.name == name {
                return &content.messages;
            }
        }
    }
    panic!("Expected selector node");
}

#[test]
fn test_populate_selector_message_info() {
    let graph = scenario_graph();
    let mut designer_graph = designer_graph_of(&graph);

    let issues = populate_selector_messages_info(&mut designer_graph, &graph);
    assert!(issues.is_empty());

    // selector_1_and_2 matches ext_1 and ext_2:
    // ext_1 has cmd (command_a, command_b) Out and data (data_x) Out;
    // ext_2 has data (data_y) Out and audio_frame (audio_stream_1) Out.
    let messages = selector_messages(&designer_graph, "selector_1_and_2");
    assert_eq!(messages.len(), 5, "Expected 5 messages for selector_1_and_2");

    assert!(
        messages.iter().any(|m| m.msg_type == MsgType::Cmd
            && m.msg_name == "command_a"
            && m.direction == MsgDirection::Out
            && m.node_name == "ext_1"),
        "Missing command_a from ext_1"
    );
    assert!(
        messages.iter().any(|m| m.msg_type == MsgType::Cmd
            && m.msg_name == "command_b"
            && m.direction == MsgDirection::Out
            && m.node_name == "ext_1"),
        "Missing command_b from ext_1"
    );
    assert!(
        messages.iter().any(|m| m.msg_type == MsgType::Data
            && m.msg_name == "data_x"
            && m.direction == MsgDirection::Out
            && m.node_name == "ext_1"),
        "Missing data_x from ext_1"
    );
    assert!(
        messages.iter().any(|m| m.msg_type == MsgType::Data
            && m.msg_name == "data_y"
            && m.direction == MsgDirection::Out
            && m.node_name == "ext_2"),
        "Missing data_y from ext_2"
    );
    assert!(
        messages.iter().any(|m| m.msg_type == MsgType::AudioFrame
            && m.msg_name == "audio_stream_1"
            && m.direction == MsgDirection::Out
            && m.node_name == "ext_2"),
        "Missing audio_stream_1 from ext_2"
    );

    // selector_all matches all three nodes: 8 messages in total.
    let messages = selector_messages(&designer_graph, "selector_all");
    assert_eq!(messages.len(), 8, "Expected 8 messages for selector_all");

    assert!(
        messages.iter().any(|m| m.msg_name == "command_a" && m.node_name == "ext_1"),
        "Missing command_a from ext_1"
    );
    assert!(
        messages.iter().any(|m| m.msg_name == "command_b" && m.node_name == "ext_1"),
        "Missing command_b from ext_1"
    );
    assert!(
        messages.iter().any(|m| m.msg_name == "data_x" && m.node_name == "ext_1"),
        "Missing data_x from ext_1"
    );
    assert!(
        messages.iter().any(|m| m.msg_name == "data_y" && m.node_name == "ext_2"),
        "Missing data_y from ext_2"
    );
    assert!(
        messages.iter().any(|m| m.msg_name == "data_z" && m.node_name == "ext_3"),
        "Missing data_z from ext_3"
    );
    assert!(
        messages.iter().any(|m| m.msg_name == "audio_stream_1" && m.node_name == "ext_2"),
        "Missing audio_stream_1 from ext_2"
    );
    assert!(
        messages.iter().any(|m| m.msg_name == "video_stream_1" && m.node_name == "ext_3"),
        "Missing video_stream_1 from ext_3"
    );
    assert!(
        messages.iter().any(|m| m.msg_name == "video_stream_2" && m.node_name == "ext_3"),
        "Missing video_stream_2 from ext_3"
    );
}

#[test]
fn resolution_is_deterministic_and_idempotent() {
    let graph = scenario_graph();

    // Two independent passes over the same snapshot.
    let mut dg_a = designer_graph_of(&graph);
    let mut dg_b = designer_graph_of(&graph);
    populate_selector_messages_info(&mut dg_a, &graph);
    populate_selector_messages_info(&mut dg_b, &graph);
    assert_eq!(
        selector_messages(&dg_a, "selector_all"),
        selector_messages(&dg_b, "selector_all")
    );
    assert_eq!(
        selector_messages(&dg_a, "selector_1_and_2"),
        selector_messages(&dg_b, "selector_1_and_2")
    );

    // A second pass over an already-populated designer graph.
    let first = selector_messages(&dg_a, "selector_all").clone();
    populate_selector_messages_info(&mut dg_a, &graph);
    assert_eq!(selector_messages(&dg_a, "selector_all"), &first);
}

#[test]
fn no_match_selector_resolves_to_empty_list() {
    let graph = Graph {
        nodes: vec![
            ext_node("ext_1", "addon_a"),
            GraphNode::Selector {
                content: SelectorNode {
                    name: "selector_none".to_string(),
                    filter: exact("name", "no_such_node"),
                },
            },
        ],
        connections: Some(vec![GraphConnection {
            loc: loc("ext_1"),
            cmd: Some(vec![out_flow(&["command_a"])]),
            data: None,
            audio_frame: None,
            video_frame: None,
        }]),
    };
    let mut dg = designer_graph_of(&graph);
    let issues = populate_selector_messages_info(&mut dg, &graph);
    assert!(issues.is_empty());
    assert!(selector_messages(&dg, "selector_none").is_empty());
}

#[test]
fn invalid_pattern_is_reported_and_selector_left_alone() {
    let graph = Graph {
        nodes: vec![
            ext_node("ext_1", "addon_a"),
            GraphNode::Selector {
                content: SelectorNode {
                    name: "selector_bad".to_string(),
                    filter: Filter::Atomic(AtomicFilter {
                        field: "name".to_string(),
                        operator: FilterOperator::Regex,
                        value: "foo(bar".to_string(),
                    }),
                },
            },
        ],
        connections: None,
    };
    let mut dg = designer_graph_of(&graph);
    let issues = populate_selector_messages_info(&mut dg, &graph);
    assert_eq!(issues.len(), 1);
    assert_eq!(issues[0].selector_name, "selector_bad");
    assert_eq!(issues[0].error, ten_manager::errors::GraphError::InvalidFilterPattern);
    assert!(selector_messages(&dg, "selector_bad").is_empty());
}

#[test]
fn duplicate_flows_keep_their_multiplicity() {
    // Two identical cmd flows from the same node: the selector must see the
    // record twice, not once.
    let graph = Graph {
        nodes: vec![
            ext_node("ext_1", "addon_a"),
            GraphNode::Selector {
                content: SelectorNode {
                    name: "selector_dup".to_string(),
                    filter: exact("name", "ext_1"),
                },
            },
        ],
        connections: Some(vec![GraphConnection {
            loc: loc("ext_1"),
            cmd: Some(vec![out_flow(&["command_a"]), out_flow(&["command_a"])]),
            data: None,
            audio_frame: None,
            video_frame: None,
        }]),
    };
    let mut dg = designer_graph_of(&graph);
    let issues = populate_selector_messages_info(&mut dg, &graph);
    assert!(issues.is_empty());
    let messages = selector_messages(&dg, "selector_dup");
    assert_eq!(messages.len(), 2);
    assert_eq!(messages[0], messages[1]);
    assert_eq!(messages[0].msg_name, "command_a");
}
