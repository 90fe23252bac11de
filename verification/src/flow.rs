//! The message-flow index: a single pass over a graph's connections that
//! produces, per node, the ordered message-binding records implied by that
//! node's declared flows.
//!
//! For every connection, for every message category present, for every flow
//! entry in that category, the entry's name(s) expand into individual
//! message names; for each name, under the connection's origin node name, a
//! non-empty `dest` list yields an `Out` record and a non-empty `source`
//! list yields an `In` record — both when both lists are populated. No
//! deduplication happens at any stage.

use vstd::prelude::*;

use crate::graph::{spec_loc_node_name, GraphConnection, GraphMessageFlow};
use crate::message::{DesignerSelectorMessageInfo, MessageRecordView, MsgDirection, MsgType};
use crate::strings::string_eq_str;

verus! {

/// A record value: one message binding of one node.
pub open spec fn spec_record(
    ty: MsgType,
    nm: Seq<char>,
    dir: MsgDirection,
    node: Seq<char>,
) -> MessageRecordView {
    MessageRecordView { msg_type: ty, msg_name: nm, direction: dir, node_name: node }
}

/// The records one message name of one flow entry contributes: an `Out`
/// record when the entry's `dest` list is non-empty, then an `In` record
/// when its `source` list is non-empty. The two checks are independent.
pub open spec fn name_records(
    node: Seq<char>,
    ty: MsgType,
    nm: Seq<char>,
    has_dest: bool,
    has_source: bool,
) -> Seq<MessageRecordView> {
    (if has_dest {
        seq![spec_record(ty, nm, MsgDirection::Out, node)]
    } else {
        Seq::empty()
    }) + (if has_source {
        seq![spec_record(ty, nm, MsgDirection::In, node)]
    } else {
        Seq::empty()
    })
}

/// The records a list of message names contributes, in name order.
pub open spec fn names_records(
    node: Seq<char>,
    ty: MsgType,
    names: Seq<Seq<char>>,
    has_dest: bool,
    has_source: bool,
) -> Seq<MessageRecordView>
    decreases names.len(),
{
    if names.len() == 0 {
        Seq::empty()
    } else {
        names_records(node, ty, names.drop_last(), has_dest, has_source) + name_records(
            node,
            ty,
            names.last(),
            has_dest,
            has_source,
        )
    }
}

/// The singular name of a flow entry, as a (zero- or one-element) list.
pub open spec fn spec_flow_single_name(fl: GraphMessageFlow) -> Seq<Seq<char>> {
    match fl.name {
        Some(n) => seq![n@],
        None => Seq::empty(),
    }
}

/// The listed names of a flow entry.
pub open spec fn spec_flow_listed_names(fl: GraphMessageFlow) -> Seq<Seq<char>> {
    match fl.names {
        Some(ns) => ns.deep_view(),
        None => Seq::empty(),
    }
}

/// All message names of a flow entry: the singular `name` first, then the
/// `names` list — semantically "repeat this entry once per name".
pub open spec fn spec_flow_names(fl: GraphMessageFlow) -> Seq<Seq<char>> {
    spec_flow_single_name(fl) + spec_flow_listed_names(fl)
}

/// The records one flow entry contributes under an origin node name.
pub open spec fn flow_records(node: Seq<char>, ty: MsgType, fl: GraphMessageFlow) -> Seq<
    MessageRecordView,
> {
    names_records(node, ty, spec_flow_names(fl), fl.dest@.len() > 0, fl.source@.len() > 0)
}

/// The records a list of flow entries contributes, in entry order.
pub open spec fn flows_records(node: Seq<char>, ty: MsgType, flows: Seq<GraphMessageFlow>) -> Seq<
    MessageRecordView,
>
    decreases flows.len(),
{
    if flows.len() == 0 {
        Seq::empty()
    } else {
        flows_records(node, ty, flows.drop_last()) + flow_records(node, ty, flows.last())
    }
}

/// The records one optional message category contributes.
pub open spec fn category_records(
    node: Seq<char>,
    ty: MsgType,
    flows: Option<Vec<GraphMessageFlow>>,
) -> Seq<MessageRecordView> {
    match flows {
        Some(v) => flows_records(node, ty, v@),
        None => Seq::empty(),
    }
}

/// The records one connection contributes: its categories in the order
/// cmd, data, audio_frame, video_frame, all under its origin node name.
pub open spec fn connection_records(c: GraphConnection) -> Seq<MessageRecordView> {
    let node = spec_loc_node_name(c.loc);
    category_records(node, MsgType::Cmd, c.cmd) + category_records(node, MsgType::Data, c.data)
        + category_records(node, MsgType::AudioFrame, c.audio_frame) + category_records(
        node,
        MsgType::VideoFrame,
        c.video_frame,
    )
}

/// Every record a connection list implies, in traversal order.
pub open spec fn all_records(conns: Seq<GraphConnection>) -> Seq<MessageRecordView>
    decreases conns.len(),
{
    if conns.len() == 0 {
        Seq::empty()
    } else {
        all_records(conns.drop_last()) + connection_records(conns.last())
    }
}

/// The records of one node: the full record list restricted to that node
/// name, order and multiplicity preserved.
pub open spec fn spec_records_for_node(
    records: Seq<MessageRecordView>,
    node: Seq<char>,
) -> Seq<MessageRecordView>
    decreases records.len(),
{
    if records.len() == 0 {
        Seq::empty()
    } else {
        spec_records_for_node(records.drop_last(), node) + if records.last().node_name == node {
            seq![records.last()]
        } else {
            Seq::empty()
        }
    }
}

/// The message-flow index over one connection list: every record, in
/// traversal order, each carrying the node name it belongs to. Built once
/// per resolution pass and shared across all selectors of that pass.
#[derive(Debug)]
pub struct MessageFlowIndex {
    pub records: Vec<DesignerSelectorMessageInfo>,
}

impl View for MessageFlowIndex {
    type V = Seq<MessageRecordView>;

    open spec fn view(&self) -> Seq<MessageRecordView> {
        self.records.deep_view()
    }
}

/// Appends the records of one message name of one flow entry.
#[verifier::loop_isolation(false)]
fn append_name_records(
    records: &mut Vec<DesignerSelectorMessageInfo>,
    node: &String,
    ty: MsgType,
    nm: &String,
    has_dest: bool,
    has_source: bool,
)
    ensures
        final(records).deep_view() == old(records).deep_view() + name_records(
            node@,
            ty,
            nm@,
            has_dest,
            has_source,
        ),
{
    if has_dest {
        records.push(
            DesignerSelectorMessageInfo {
                msg_type: ty,
                msg_name: nm.clone(),
                direction: MsgDirection::Out,
                node_name: node.clone(),
            },
        );
    }
    if has_source {
        records.push(
            DesignerSelectorMessageInfo {
                msg_type: ty,
                msg_name: nm.clone(),
                direction: MsgDirection::In,
                node_name: node.clone(),
            },
        );
    }
    proof {
        assert(records.deep_view() =~= old(records).deep_view() + name_records(
            node@,
            ty,
            nm@,
            has_dest,
            has_source,
        ));
    }
}

/// Appends clones of every string of `ns` to `v`, in order.
#[verifier::loop_isolation(false)]
fn append_string_clones(v: &mut Vec<String>, ns: &Vec<String>)
    ensures
        final(v).deep_view() == old(v).deep_view() + ns.deep_view(),
{
    let mut i: usize = 0;
    while i < ns.len()
        invariant
            i <= ns.len(),
            v.deep_view() == old(v).deep_view() + ns.deep_view().take(i as int),
        decreases ns.len() - i,
    {
        let ghost prev = v.deep_view();
        v.push(ns[i].clone());
        proof {
            assert(v@[v@.len() - 1] == ns@[i as int]);
            assert(v@[v@.len() - 1].deep_view() == ns.deep_view()[i as int]);
            assert(v.deep_view() =~= prev.push(ns.deep_view()[i as int]));
            assert(ns.deep_view().take(i as int + 1) =~= ns.deep_view().take(i as int).push(
                ns.deep_view()[i as int],
            ));
            assert(v.deep_view() =~= old(v).deep_view() + ns.deep_view().take(i as int + 1));
        }
        i += 1;
    }
    proof {
        assert(ns.deep_view().take(ns@.len() as int) =~= ns.deep_view());
    }
}

/// Collects every message name of a flow entry: the singular `name` first,
/// then the `names` list.
fn flow_msg_names(fl: &GraphMessageFlow) -> (r: Vec<String>)
    ensures
        r.deep_view() == spec_flow_names(*fl),
{
    let mut v: Vec<String> = Vec::new();
    match &fl.name {
        Some(n) => {
            v.push(n.clone());
        },
        None => {},
    }
    proof {
        assert(v.deep_view() =~= spec_flow_single_name(*fl));
    }
    match &fl.names {
        Some(ns) => {
            append_string_clones(&mut v, ns);
        },
        None => {},
    }
    proof {
        assert(v.deep_view() =~= spec_flow_names(*fl));
    }
    v
}

/// Appends the records of one flow entry under an origin node name.
#[verifier::rlimit(30)]
#[verifier::loop_isolation(false)]
fn append_flow_records(
    records: &mut Vec<DesignerSelectorMessageInfo>,
    node: &String,
    ty: MsgType,
    fl: &GraphMessageFlow,
)
    ensures
        final(records).deep_view() == old(records).deep_view() + flow_records(node@, ty, *fl),
{
    let names = flow_msg_names(fl);
    let has_dest = fl.dest.len() > 0;
    let has_source = fl.source.len() > 0;
    let mut i: usize = 0;
    while i < names.len()
        invariant
            i <= names.len(),
            records.deep_view() == old(records).deep_view() + names_records(
                node@,
                ty,
                names.deep_view().take(i as int),
                has_dest,
                has_source,
            ),
        decreases names.len() - i,
    {
        append_name_records(records, node, ty, &names[i], has_dest, has_source);
        proof {
            let nv = names.deep_view();
            assert(nv.take(i as int + 1).drop_last() =~= nv.take(i as int));
            assert(nv.take(i as int + 1).last() == nv[i as int]);
            assert(records.deep_view() =~= old(records).deep_view() + names_records(
                node@,
                ty,
                nv.take(i as int + 1),
                has_dest,
                has_source,
            ));
        }
        i += 1;
    }
    proof {
        assert(names.deep_view().take(names@.len() as int) =~= names.deep_view());
    }
}

/// Appends the records of a list of flow entries, in entry order.
#[verifier::loop_isolation(false)]
fn append_flows_records(
    records: &mut Vec<DesignerSelectorMessageInfo>,
    node: &String,
    ty: MsgType,
    flows: &Vec<GraphMessageFlow>,
)
    ensures
        final(records).deep_view() == old(records).deep_view() + flows_records(node@, ty, flows@),
{
    let mut i: usize = 0;
    while i < flows.len()
        invariant
            i <= flows.len(),
            records.deep_view() == old(records).deep_view() + flows_records(
                node@,
                ty,
                flows@.take(i as int),
            ),
        decreases flows.len() - i,
    {
        append_flow_records(records, node, ty, &flows[i]);
        proof {
            assert(flows@.take(i as int + 1).drop_last() =~= flows@.take(i as int));
            assert(records.deep_view() =~= old(records).deep_view() + flows_records(
                node@,
                ty,
                flows@.take(i as int + 1),
            ));
        }
        i += 1;
    }
    proof {
        assert(flows@.take(flows@.len() as int) =~= flows@);
    }
}

/// Appends the records of one optional message category.
fn append_category_records(
    records: &mut Vec<DesignerSelectorMessageInfo>,
    node: &String,
    ty: MsgType,
    flows: &Option<Vec<GraphMessageFlow>>,
)
    ensures
        final(records).deep_view() == old(records).deep_view() + category_records(
            node@,
            ty,
            *flows,
        ),
{
    match flows {
        Some(v) => append_flows_records(records, node, ty, v),
        None => {},
    }
}

/// Builds the message-flow index: one pass over the connection list, in
/// order; per connection the categories cmd, data, audio_frame and
/// video_frame, in that order.
#[verifier::loop_isolation(false)]
pub fn build_index(connections: &Vec<GraphConnection>) -> (r: MessageFlowIndex)
    ensures
        r@ == all_records(connections@),
{
    let mut records: Vec<DesignerSelectorMessageInfo> = Vec::new();
    let mut i: usize = 0;
    while i < connections.len()
        invariant
            i <= connections.len(),
            records.deep_view() == all_records(connections@.take(i as int)),
        decreases connections.len() - i,
    {
        let conn = &connections[i];
        let node: String = match conn.loc.get_node_name() {
            Some(s) => s.clone(),
            None => String::new(),
        };
        proof {
            assert(node@ == spec_loc_node_name(conn.loc));
        }
        let ghost before = records.deep_view();
        append_category_records(&mut records, &node, MsgType::Cmd, &conn.cmd);
        append_category_records(&mut records, &node, MsgType::Data, &conn.data);
        append_category_records(&mut records, &node, MsgType::AudioFrame, &conn.audio_frame);
        append_category_records(&mut records, &node, MsgType::VideoFrame, &conn.video_frame);
        proof {
            assert(records.deep_view() =~= before + connection_records(*conn));
            assert(connections@.take(i as int + 1).drop_last() =~= connections@.take(i as int));
            assert(records.deep_view() =~= all_records(connections@.take(i as int + 1)));
        }
        i += 1;
    }
    proof {
        assert(connections@.take(connections@.len() as int) =~= connections@);
    }
    MessageFlowIndex { records }
}

impl MessageFlowIndex {
    /// The records of one node, in index order, duplicates preserved; an
    /// unknown node name yields the empty list, not an error.
    #[verifier::loop_isolation(false)]
    pub fn records_for_node(&self, node_name: &str) -> (r: Vec<DesignerSelectorMessageInfo>)
        ensures
            r.deep_view() == spec_records_for_node(self@, node_name@),
    {
        let mut r: Vec<DesignerSelectorMessageInfo> = Vec::new();
        let mut i: usize = 0;
        while i < self.records.len()
            invariant
                i <= self.records.len(),
                r.deep_view() == spec_records_for_node(self@.take(i as int), node_name@),
            decreases self.records.len() - i,
        {
            let matched = string_eq_str(&self.records[i].node_name, node_name);
            proof {
                assert(self@.take(i as int + 1).drop_last() =~= self@.take(i as int));
                assert(self@.take(i as int + 1).last() == self@[i as int]);
            }
            proof {
                assert(self@[i as int] == self.records@[i as int].deep_view());
            }
            if matched {
                let ghost prev = r.deep_view();
                r.push(self.records[i].copied());
                proof {
                    assert(r@[r@.len() - 1].deep_view() == self@[i as int]);
                    assert(r.deep_view() =~= prev.push(self@[i as int]));
                    assert(r.deep_view() =~= prev + seq![self@[i as int]]);
                }
            }
            proof {
                assert(r.deep_view() =~= spec_records_for_node(
                    self@.take(i as int + 1),
                    node_name@,
                ));
            }
            i += 1;
        }
        proof {
            assert(self@.take(self@.len() as int) =~= self@);
        }
        r
    }
}

} // verus!
