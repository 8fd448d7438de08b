use vstd::prelude::*;

use crate::message::{Message, MessageModel};

verus! {

/// One item of the inbound event stream of a subscription, reduced to plain
/// values: what the delivery pump reads of a protocol-level event. The
/// runtime that owns the stream converts each item it receives into this
/// form before handing it to the pump.
pub enum InboundEvent {
    /// A new direct neighbor joined the membership layer for this topic.
    NeighborUp(String),
    /// A direct neighbor was dropped.
    NeighborDown(String),
    /// A gossip payload arrived, relayed by `delivered_from`.
    Received {
        /// The content of the payload.
        content: Vec<u8>,
        /// The peer that relayed the payload.
        delivered_from: String,
    },
    /// The initial set of direct neighbors upon successful bootstrap.
    Joined(Vec<String>),
    /// A run of events was dropped because the receiver could not keep up.
    Lagged,
    /// The stream reported a protocol-level error for this one event; the
    /// stream itself stays open.
    Failed(String),
}

/// The mathematical model of an [`InboundEvent`].
pub enum InboundEventModel {
    NeighborUp(Seq<char>),
    NeighborDown(Seq<char>),
    Received { content: Seq<u8>, delivered_from: Seq<char> },
    Joined(Seq<Seq<char>>),
    Lagged,
    Failed(Seq<char>),
}

impl View for InboundEvent {
    type V = InboundEventModel;

    open spec fn view(&self) -> InboundEventModel {
        match self {
            InboundEvent::NeighborUp(peer) => InboundEventModel::NeighborUp(peer@),
            InboundEvent::NeighborDown(peer) => InboundEventModel::NeighborDown(peer@),
            InboundEvent::Received { content, delivered_from } => (InboundEventModel::Received {
                content: content@,
                delivered_from: delivered_from@,
            }),
            InboundEvent::Joined(peers) => InboundEventModel::Joined(peers.deep_view()),
            InboundEvent::Lagged => InboundEventModel::Lagged,
            InboundEvent::Failed(description) => InboundEventModel::Failed(description@),
        }
    }
}

impl DeepView for InboundEvent {
    type V = InboundEventModel;

    open spec fn deep_view(&self) -> InboundEventModel {
        self.view()
    }
}

/// The mapping from an inbound stream item to the message handed to the
/// callback: each event becomes exactly one message of the same shape, and a
/// stream-level error becomes an `Error` message rather than a failure.
pub open spec fn translated(e: InboundEventModel) -> MessageModel {
    match e {
        InboundEventModel::NeighborUp(peer) => MessageModel::NeighborUp(peer),
        InboundEventModel::NeighborDown(peer) => MessageModel::NeighborDown(peer),
        InboundEventModel::Received { content, delivered_from } => (MessageModel::Received {
            content,
            delivered_from,
        }),
        InboundEventModel::Joined(peers) => MessageModel::Joined(peers),
        InboundEventModel::Lagged => MessageModel::Lagged,
        InboundEventModel::Failed(description) => MessageModel::Error(description),
    }
}

/// Translates one inbound stream item into the message delivered for it.
pub fn translate_event(e: InboundEvent) -> (m: Message)
    ensures
        m@ == translated(e@),
{
    match e {
        InboundEvent::NeighborUp(peer) => Message::NeighborUp(peer),
        InboundEvent::NeighborDown(peer) => Message::NeighborDown(peer),
        InboundEvent::Received { content, delivered_from } => (Message::Received {
            content,
            delivered_from,
        }),
        InboundEvent::Joined(peers) => Message::Joined(peers),
        InboundEvent::Lagged => Message::Lagged,
        InboundEvent::Failed(description) => Message::Error(description),
    }
}

} // verus!
