//! Filter matching, boolean composition, and the message-flow index.

use ten_manager::engine::{select_nodes, CompiledFilter};
use ten_manager::errors::GraphError;
use ten_manager::filter::{AtomicFilter, Filter, FilterOperator};
use ten_manager::flow::build_index;
use ten_manager::graph::{GraphConnection, GraphLoc, GraphMessageFlow};
use ten_manager::message::{MsgDirection, MsgType};
use ten_manager::node::{ExtensionNode, GraphNode, SelectorNode, SubgraphNode, GraphReference};

fn plain(name: &str, addon: &str) -> GraphNode {
    GraphNode::Extension {
        content: ExtensionNode {
            name: name.to_string(),
            addon: addon.to_string(),
            extension_group: Some("group_1".to_string()),
            app: None,
            property: None,
        },
    }
}

fn atom(field: &str, operator: FilterOperator, value: &str) -> Filter {
    Filter::Atomic(AtomicFilter {
        field: field.to_string(),
        operator,
        value: value.to_string(),
    })
}

fn compile(f: &Filter) -> CompiledFilter {
    CompiledFilter::compile(f).expect("filter should compile")
}

#[test]
fn exact_name_filter_matches_only_that_node() {
    let f = compile(&atom("name", FilterOperator::Exact, "ext_1"));
    assert!(ten_manager::engine::matches(&f, &plain("ext_1", "anything")));
    assert!(ten_manager::engine::matches(&f, &plain("ext_1", "other_addon")));
    assert!(!ten_manager::engine::matches(&f, &plain("ext_2", "anything")));
    // A selector node of the same name is attribute-opaque and never matches.
    let selector = GraphNode::Selector {
        content: SelectorNode {
            name: "ext_1".to_string(),
            filter: atom("name", FilterOperator::Exact, "x"),
        },
    };
    assert!(!ten_manager::engine::matches(&f, &selector));
    // So is a subgraph-reference node.
    let subgraph = GraphNode::Subgraph {
        content: SubgraphNode {
            name: "ext_1".to_string(),
            property: None,
            graph: GraphReference { import_uri: "file://g.json".to_string() },
        },
    };
    assert!(!ten_manager::engine::matches(&f, &subgraph));
}

#[test]
fn regex_addon_filter_matches_prefixed_addons() {
    let f = compile(&atom("addon", FilterOperator::Regex, "^audio_.*"));
    assert!(ten_manager::engine::matches(&f, &plain("n1", "audio_capture")));
    assert!(ten_manager::engine::matches(&f, &plain("n2", "audio_")));
    assert!(!ten_manager::engine::matches(&f, &plain("n3", "video_capture")));
    assert!(!ten_manager::engine::matches(&f, &plain("n4", "an_audio_thing")));
}

#[test]
fn missing_attribute_is_false_not_an_error() {
    // The node has no `app` attribute: the atomic test is false.
    let f = compile(&atom("app", FilterOperator::Exact, "app_1"));
    assert!(!ten_manager::engine::matches(&f, &plain("ext_1", "addon_a")));
    // An unknown field name never matches either.
    let g = compile(&atom("no_such_field", FilterOperator::Exact, "x"));
    assert!(!ten_manager::engine::matches(&g, &plain("ext_1", "addon_a")));
}

#[test]
fn boolean_composition_over_candidates() {
    let nodes = vec![
        plain("a", "audio_in"),
        plain("b", "audio_out"),
        plain("c", "video_in"),
    ];

    // And of the empty list matches every node.
    let all = compile(&Filter::And { and: Vec::new() });
    let idxs = select_nodes(&all, &nodes);
    assert_eq!(idxs, vec![0, 1, 2]);

    // Or of the empty list matches no node.
    let none = compile(&Filter::Or { or: Vec::new() });
    assert_eq!(select_nodes(&none, &nodes), Vec::<usize>::new());

    // And of two filters selects the intersection.
    let a = atom("addon", FilterOperator::Regex, "^audio_.*");
    let b = atom("name", FilterOperator::Exact, "b");
    let both = compile(&Filter::And { and: vec![a, b] });
    assert_eq!(select_nodes(&both, &nodes), vec![1]);

    // Or of two filters selects the union, in candidate order.
    let a = atom("addon", FilterOperator::Regex, "^audio_.*");
    let c = atom("name", FilterOperator::Exact, "c");
    let either = compile(&Filter::Or { or: vec![a, c] });
    assert_eq!(select_nodes(&either, &nodes), vec![0, 1, 2]);
}

#[test]
fn short_circuit_results_match_full_evaluation() {
    // An Or whose first child already matches, and an And whose first child
    // already fails: the observable result is the same as full evaluation.
    let n = plain("x", "audio_in");
    let yes = atom("name", FilterOperator::Exact, "x");
    let no = atom("name", FilterOperator::Exact, "y");
    let or = compile(&Filter::Or { or: vec![yes, atom("addon", FilterOperator::Exact, "zzz")] });
    assert!(ten_manager::engine::matches(&or, &n));
    let and = compile(&Filter::And { and: vec![no, atom("addon", FilterOperator::Exact, "audio_in")] });
    assert!(!ten_manager::engine::matches(&and, &n));
}

#[test]
fn invalid_pattern_fails_compilation_fail_fast() {
    let bad = atom("addon", FilterOperator::Regex, "foo(bar");
    match CompiledFilter::compile(&bad) {
        Err(e) => assert_eq!(e, GraphError::InvalidFilterPattern),
        Ok(_) => panic!("pattern should not compile"),
    }
    // A malformed pattern deep in a tree surfaces before any evaluation.
    let nested = Filter::And {
        and: vec![
            atom("name", FilterOperator::Exact, "fine"),
            Filter::Or { or: vec![atom("addon", FilterOperator::Regex, "[unclosed")] },
        ],
    };
    assert!(CompiledFilter::compile(&nested).is_err());
}

#[test]
fn index_records_one_out_record_for_dest_only_flow() {
    // A cmd flow named command_a with a non-empty dest list and an empty
    // source list: exactly one (Cmd, command_a, Out, ext_1) record.
    let conn = GraphConnection {
        loc: GraphLoc {
            app: None,
            extension: Some("ext_1".to_string()),
            subgraph: None,
            selector: None,
        },
        cmd: Some(vec![GraphMessageFlow {
            name: Some("command_a".to_string()),
            names: None,
            source: Vec::new(),
            dest: vec![GraphLoc {
                app: None,
                extension: Some("ext_2".to_string()),
                subgraph: None,
                selector: None,
            }],
        }]),
        data: None,
        audio_frame: None,
        video_frame: None,
    };
    let index = build_index(&vec![conn]);
    assert_eq!(index.records.len(), 1);
    let rec = &index.records[0];
    assert_eq!(rec.msg_type, MsgType::Cmd);
    assert_eq!(rec.msg_name, "command_a");
    assert_eq!(rec.direction, MsgDirection::Out);
    assert_eq!(rec.node_name, "ext_1");
    // No In record anywhere.
    assert!(!index.records.iter().any(|r| r.direction == MsgDirection::In));
}

#[test]
fn index_records_both_directions_for_two_sided_flow() {
    let conn = GraphConnection {
        loc: GraphLoc {
            app: None,
            extension: Some("ext_1".to_string()),
            subgraph: None,
            selector: None,
        },
        data: Some(vec![GraphMessageFlow {
            name: Some("data_x".to_string()),
            names: Some(vec!["data_y".to_string()]),
            source: vec![GraphLoc {
                app: None,
                extension: Some("src".to_string()),
                subgraph: None,
                selector: None,
            }],
            dest: vec![GraphLoc {
                app: None,
                extension: Some("dst".to_string()),
                subgraph: None,
                selector: None,
            }],
        }]),
        cmd: None,
        audio_frame: None,
        video_frame: None,
    };
    let index = build_index(&vec![conn]);
    // Two names, each with an Out and an In record, Out first.
    assert_eq!(index.records.len(), 4);
    assert_eq!(index.records[0].msg_name, "data_x");
    assert_eq!(index.records[0].direction, MsgDirection::Out);
    assert_eq!(index.records[1].msg_name, "data_x");
    assert_eq!(index.records[1].direction, MsgDirection::In);
    assert_eq!(index.records[2].msg_name, "data_y");
    assert_eq!(index.records[2].direction, MsgDirection::Out);
    assert_eq!(index.records[3].msg_name, "data_y");
    assert_eq!(index.records[3].direction, MsgDirection::In);
    // Every record belongs to the connection's origin node.
    assert!(index.records.iter().all(|r| r.node_name == "ext_1"));
    // Lookup by node name returns them all, in order; an unknown node gets
    // an empty list.
    assert_eq!(index.records_for_node("ext_1").len(), 4);
    assert!(index.records_for_node("nobody").is_empty());
}
