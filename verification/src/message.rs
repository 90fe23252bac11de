//! Message categories, directions, and the derived message-binding record.

use vstd::prelude::*;

verus! {

/// The four categories of message flow a connection may declare.
#[derive(Clone, Copy, Debug, PartialEq, Eq, Structural)]
pub enum MsgType {
    Cmd,
    Data,
    AudioFrame,
    VideoFrame,
}

/// The direction of a message binding relative to the node that declares it.
#[derive(Clone, Copy, Debug, PartialEq, Eq, Structural)]
pub enum MsgDirection {
    In,
    Out,
}

/// The mathematical value of a message record: the record with its strings
/// read as character sequences.
pub struct MessageRecordView {
    pub msg_type: MsgType,
    pub msg_name: Seq<char>,
    pub direction: MsgDirection,
    pub node_name: Seq<char>,
}

/// One message binding exposed by a node: derived from the connection list,
/// never stored in the graph itself.
#[derive(Clone, Debug, PartialEq)]
pub struct DesignerSelectorMessageInfo {
    /// The category of the message.
    pub msg_type: MsgType,
    /// The name of the message.
    pub msg_name: String,
    /// The direction of the message flow.
    pub direction: MsgDirection,
    /// The name of the node that declares this message.
    pub node_name: String,
}

impl View for DesignerSelectorMessageInfo {
    type V = MessageRecordView;

    open spec fn view(&self) -> MessageRecordView {
        MessageRecordView {
            msg_type: self.msg_type,
            msg_name: self.msg_name@,
            direction: self.direction,
            node_name: self.node_name@,
        }
    }
}

impl DeepView for DesignerSelectorMessageInfo {
    type V = MessageRecordView;

    open spec fn deep_view(&self) -> MessageRecordView {
        self@
    }
}

impl DesignerSelectorMessageInfo {
    /// An equal copy of this record.
    pub fn copied(&self) -> (r: DesignerSelectorMessageInfo)
        ensures
            r == *self,
    {
        DesignerSelectorMessageInfo {
            msg_type: self.msg_type,
            msg_name: self.msg_name.clone(),
            direction: self.direction,
            node_name: self.node_name.clone(),
        }
    }
}

} // verus!
