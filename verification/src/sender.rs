use vstd::prelude::*;

use crate::error::GossipError;

verus! {

/// The state of the cancellation signal shared between the duplex handle
/// and the delivery pump. The transition from `Active` to `Cancelled` is
/// one-way: the handle writes it at most once, the pump only reads it.
#[derive(Debug, Clone, Copy, PartialEq, Eq, Structural)]
pub enum SignalState {
    /// The subscription is live.
    Active,
    /// The subscription was cancelled.
    Cancelled,
}

/// One cancellation attempt against a signal in state `s`, where `close_ok`
/// says whether closing the outbound channel succeeded: an already
/// cancelled signal rejects the attempt outright; otherwise the signal
/// flips exactly when the close went through. The returned pair is the new
/// signal state and whether the attempt succeeded.
pub open spec fn cancel_attempt(s: SignalState, close_ok: bool) -> (SignalState, bool) {
    match s {
        SignalState::Cancelled => (SignalState::Cancelled, false),
        SignalState::Active => if close_ok {
            (SignalState::Cancelled, true)
        } else {
            (SignalState::Active, false)
        },
    }
}

/// Law: cancellation succeeds at most once — after a successful attempt,
/// every further attempt on the same signal is rejected, however the
/// outbound channel behaves.
pub proof fn lemma_second_cancel_rejected(s: SignalState, close_first: bool, close_second: bool)
    requires
        cancel_attempt(s, close_first).1,
    ensures
        !cancel_attempt(cancel_attempt(s, close_first).0, close_second).1,
{
}

/// The cancellation signal itself. The handle consults it before closing
/// the outbound channel and flips it afterwards; the pump polls it at each
/// loop iteration.
pub struct CancelSignal {
    cancelled: bool,
}

impl CancelSignal {
    /// The state of the signal.
    pub closed spec fn state(&self) -> SignalState {
        if self.cancelled {
            SignalState::Cancelled
        } else {
            SignalState::Active
        }
    }

    /// A fresh subscription starts live.
    pub fn new() -> (s: CancelSignal)
        ensures
            s.state() is Active,
    {
        CancelSignal { cancelled: false }
    }

    /// Whether cancellation has been requested; what the pump polls.
    pub fn is_cancelled(&self) -> (b: bool)
        ensures
            b == (self.state() is Cancelled),
    {
        self.cancelled
    }

    /// The idempotency guard of `cancel`: it fails with `AlreadyClosed`
    /// exactly when the signal is already cancelled. Only on success may
    /// the caller proceed to close the outbound channel.
    pub fn begin_cancel(&self) -> (r: Result<(), GossipError>)
        ensures
            r is Ok <==> self.state() is Active,
            self.state() is Cancelled ==> r == Err::<(), GossipError>(GossipError::AlreadyClosed),
    {
        if self.cancelled {
            Err(GossipError::AlreadyClosed)
        } else {
            Ok(())
        }
    }

    /// Flips the signal, once the guard has passed and the outbound channel
    /// was closed; the pump observes the new state on its next iteration.
    pub fn finish_cancel(&mut self)
        requires
            old(self).state() is Active,
        ensures
            final(self).state() == cancel_attempt(old(self).state(), true).0,
            final(self).state() is Cancelled,
    {
        self.cancelled = true;
    }
}

/// An outbound write enqueued through the duplex handle, reduced to plain
/// values: the payload together with its reach. The runtime that owns the
/// outbound channel encodes it for the engine.
pub enum OutboundUpdate {
    /// Deliver the payload to every member of the swarm for the topic.
    Broadcast(Vec<u8>),
    /// Deliver the payload to the direct neighbors only.
    BroadcastNeighbors(Vec<u8>),
}

/// The mathematical model of an [`OutboundUpdate`].
pub enum OutboundUpdateModel {
    Broadcast(Seq<u8>),
    BroadcastNeighbors(Seq<u8>),
}

impl View for OutboundUpdate {
    type V = OutboundUpdateModel;

    open spec fn view(&self) -> OutboundUpdateModel {
        match self {
            OutboundUpdate::Broadcast(payload) => OutboundUpdateModel::Broadcast(payload@),
            OutboundUpdate::BroadcastNeighbors(payload) => (OutboundUpdateModel::BroadcastNeighbors(
                payload@,
            )),
        }
    }
}

/// The update a `broadcast` call enqueues: the payload, unchanged,
/// addressed to the whole swarm.
pub fn broadcast_update(payload: Vec<u8>) -> (u: OutboundUpdate)
    ensures
        u@ == OutboundUpdateModel::Broadcast(payload@),
{
    OutboundUpdate::Broadcast(payload)
}

/// The update a `broadcast_neighbors` call enqueues: the payload,
/// unchanged, addressed to the direct neighbors only.
pub fn broadcast_neighbors_update(payload: Vec<u8>) -> (u: OutboundUpdate)
    ensures
        u@ == OutboundUpdateModel::BroadcastNeighbors(payload@),
{
    OutboundUpdate::BroadcastNeighbors(payload)
}

} // verus!
