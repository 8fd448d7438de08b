//! Client-side subscription manager for a topic-based publish/subscribe
//! overlay on a peer-to-peer swarm.
//!
//! The library models the messages a subscription can observe, the
//! translation of inbound protocol events into that model, the delivery
//! pump's state machine, the duplex handle's cancellation discipline, and
//! the validation performed before the external gossip engine is contacted.
//! The asynchronous wiring to the engine itself lives outside the library.

pub mod error;
pub mod event;
pub mod message;
pub mod pump;
pub mod sender;
pub mod subscribe;

pub use error::{CallbackError, GossipError};
pub use event::{translate_event, InboundEvent, InboundEventModel};
pub use pump::{run_pump, GossipMessageCallback, Pump, PumpInput, PumpState};
pub use sender::{
    broadcast_neighbors_update, broadcast_update, CancelSignal, OutboundUpdate, SignalState,
};
pub use subscribe::{parse_bootstrap, prepare_subscribe, SubscribeRequest, Topic, TOPIC_LEN};
pub use message::{Message, MessageContent, MessageModel, MessageType};
