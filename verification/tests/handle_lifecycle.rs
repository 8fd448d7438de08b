use gossip_client::{
    broadcast_neighbors_update, broadcast_update, CancelSignal, GossipError, OutboundUpdate,
};

#[test]
fn second_cancel_returns_already_closed() {
    let mut signal = CancelSignal::new();
    assert!(!signal.is_cancelled());
    assert!(signal.begin_cancel().is_ok());
    signal.finish_cancel();
    assert!(signal.is_cancelled());
    let second = signal.begin_cancel();
    assert!(matches!(second, Err(GossipError::AlreadyClosed)));
}

#[test]
fn broadcast_updates_keep_the_payload_and_differ_in_reach() {
    let whole_swarm = broadcast_update(b"hello".to_vec());
    assert!(matches!(
        whole_swarm,
        OutboundUpdate::Broadcast(ref payload) if payload == &b"hello".to_vec()
    ));
    let neighbors_only = broadcast_neighbors_update(b"hello".to_vec());
    assert!(matches!(
        neighbors_only,
        OutboundUpdate::BroadcastNeighbors(ref payload) if payload == &b"hello".to_vec()
    ));
}
