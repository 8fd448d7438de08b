use vstd::prelude::*;

verus! {

/// An error returned to the caller of `subscribe` or of one of the
/// operations on the duplex handle.
#[derive(Debug)]
pub enum GossipError {
    /// The topic identifier was not exactly 32 bytes long.
    InvalidTopic,
    /// A bootstrap entry could not be parsed as a peer identifier;
    /// the offending entry is carried along.
    InvalidPeerAddress(String),
    /// The subscription was already cancelled.
    AlreadyClosed,
    /// The underlying engine reported a transport or protocol failure;
    /// the description is carried along.
    Transport(String),
}

/// An error reported by a message callback. Callback failures are
/// absorbed by the delivery loop and never terminate a subscription.
#[derive(Debug)]
pub struct CallbackError {
    /// A description of what went wrong inside the callback.
    pub description: String,
}

} // verus!
