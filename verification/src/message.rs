use vstd::pervasive::unreached;
use vstd::prelude::*;

verus! {

/// A gossip message, as handed to the subscriber's callback: the closed set
/// of events that can be observed on one topic subscription.
#[derive(Debug)]
pub enum Message {
    /// We have a new, direct neighbor in the swarm membership layer for this topic.
    NeighborUp(String),
    /// We dropped a direct neighbor in the swarm membership layer for this topic.
    NeighborDown(String),
    /// A gossip payload was received for this topic.
    Received {
        /// The content of the message.
        content: Vec<u8>,
        /// The peer that delivered the message. This is not the same as the
        /// original author.
        delivered_from: String,
    },
    /// The initial set of direct neighbors upon joining the swarm.
    Joined(Vec<String>),
    /// We missed some messages because the receiver could not keep up.
    Lagged,
    /// The inbound stream reported an error for one event; the subscription
    /// stays alive.
    Error(String),
}

/// The variant tag of a [`Message`].
#[derive(Debug, Clone, Copy, PartialEq, Eq)]
pub enum MessageType {
    NeighborUp,
    NeighborDown,
    Received,
    Joined,
    Lagged,
    Error,
}

/// The mathematical model of a [`Message`]: the same variants over sequences.
pub enum MessageModel {
    NeighborUp(Seq<char>),
    NeighborDown(Seq<char>),
    Received { content: Seq<u8>, delivered_from: Seq<char> },
    Joined(Seq<Seq<char>>),
    Lagged,
    Error(Seq<char>),
}

impl View for Message {
    type V = MessageModel;

    open spec fn view(&self) -> MessageModel {
        match self {
            Message::NeighborUp(peer) => MessageModel::NeighborUp(peer@),
            Message::NeighborDown(peer) => MessageModel::NeighborDown(peer@),
            Message::Received { content, delivered_from } => (MessageModel::Received {
                content: content@,
                delivered_from: delivered_from@,
            }),
            Message::Joined(peers) => MessageModel::Joined(peers.deep_view()),
            Message::Lagged => MessageModel::Lagged,
            Message::Error(description) => MessageModel::Error(description@),
        }
    }
}

impl DeepView for Message {
    type V = MessageModel;

    open spec fn deep_view(&self) -> MessageModel {
        self.view()
    }
}

/// The tag of a message model.
pub open spec fn tag_of(m: MessageModel) -> MessageType {
    match m {
        MessageModel::NeighborUp(_) => MessageType::NeighborUp,
        MessageModel::NeighborDown(_) => MessageType::NeighborDown,
        MessageModel::Received { .. } => MessageType::Received,
        MessageModel::Joined(_) => MessageType::Joined,
        MessageModel::Lagged => MessageType::Lagged,
        MessageModel::Error(_) => MessageType::Error,
    }
}

/// The actual content of a gossip payload message.
#[derive(Debug)]
pub struct MessageContent {
    /// The content of the message.
    pub content: Vec<u8>,
    /// The peer that delivered the message. This is not the same as the
    /// original author.
    pub delivered_from: String,
}

impl Message {
    /// The variant tag of this message.
    pub fn message_type(&self) -> (t: MessageType)
        ensures
            t == tag_of(self@),
    {
        match self {
            Message::NeighborUp(_) => MessageType::NeighborUp,
            Message::NeighborDown(_) => MessageType::NeighborDown,
            Message::Received { .. } => MessageType::Received,
            Message::Joined(_) => MessageType::Joined,
            Message::Lagged => MessageType::Lagged,
            Message::Error(_) => MessageType::Error,
        }
    }

    /// The peer of a `NeighborUp` message; to be called only on that variant.
    pub fn as_neighbor_up(&self) -> (peer: String)
        requires
            self@ is NeighborUp,
        ensures
            peer@ == self@->NeighborUp_0,
    {
        if let Message::NeighborUp(peer) = self {
            peer.clone()
        } else {
            unreached()
        }
    }

    /// The peer of a `NeighborDown` message; to be called only on that variant.
    pub fn as_neighbor_down(&self) -> (peer: String)
        requires
            self@ is NeighborDown,
        ensures
            peer@ == self@->NeighborDown_0,
    {
        if let Message::NeighborDown(peer) = self {
            peer.clone()
        } else {
            unreached()
        }
    }

    /// The neighbor list of a `Joined` message; to be called only on that variant.
    pub fn as_joined(&self) -> (peers: Vec<String>)
        requires
            self@ is Joined,
        ensures
            peers.deep_view() == self@->Joined_0,
    {
        if let Message::Joined(peers) = self {
            let copy = peers.clone();
            proof {
                assert(copy.deep_view() =~= peers.deep_view());
            }
            copy
        } else {
            unreached()
        }
    }

    /// The payload of a `Received` message; to be called only on that variant.
    pub fn as_received(&self) -> (r: MessageContent)
        requires
            self@ is Received,
        ensures
            r.content@ == self@->content,
            r.delivered_from@ == self@->delivered_from,
    {
        if let Message::Received { content, delivered_from } = self {
            let copy = content.clone();
            proof {
                assert(copy@ =~= content@);
            }
            MessageContent { content: copy, delivered_from: delivered_from.clone() }
        } else {
            unreached()
        }
    }

    /// The description of an `Error` message; to be called only on that variant.
    pub fn as_error(&self) -> (description: String)
        requires
            self@ is Error,
        ensures
            description@ == self@->Error_0,
    {
        if let Message::Error(description) = self {
            description.clone()
        } else {
            unreached()
        }
    }
}

} // verus!
