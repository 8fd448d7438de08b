use gossip_client::{Message, MessageType};

#[test]
fn message_type_reports_each_variant() {
    assert_eq!(
        Message::NeighborUp("a".to_string()).message_type(),
        MessageType::NeighborUp
    );
    assert_eq!(
        Message::NeighborDown("a".to_string()).message_type(),
        MessageType::NeighborDown
    );
    assert_eq!(
        Message::Received {
            content: vec![1, 2, 3],
            delivered_from: "a".to_string(),
        }
        .message_type(),
        MessageType::Received
    );
    assert_eq!(
        Message::Joined(vec!["a".to_string()]).message_type(),
        MessageType::Joined
    );
    assert_eq!(Message::Lagged.message_type(), MessageType::Lagged);
    assert_eq!(
        Message::Error("boom".to_string()).message_type(),
        MessageType::Error
    );
}

#[test]
fn as_neighbor_up_returns_the_peer() {
    let m = Message::NeighborUp("peer-one".to_string());
    assert_eq!(m.as_neighbor_up(), "peer-one".to_string());
}

#[test]
fn as_neighbor_down_returns_the_peer() {
    let m = Message::NeighborDown("peer-two".to_string());
    assert_eq!(m.as_neighbor_down(), "peer-two".to_string());
}

#[test]
fn as_joined_returns_the_neighbor_list() {
    let peers = vec!["a".to_string(), "b".to_string()];
    let m = Message::Joined(peers.clone());
    assert_eq!(m.as_joined(), peers);
}

#[test]
fn as_received_returns_content_and_relay() {
    let m = Message::Received {
        content: b"hello".to_vec(),
        delivered_from: "relay".to_string(),
    };
    let got = m.as_received();
    assert_eq!(got.content, b"hello".to_vec());
    assert_eq!(got.delivered_from, "relay".to_string());
}

#[test]
fn as_error_returns_the_description() {
    let m = Message::Error("went wrong".to_string());
    assert_eq!(m.as_error(), "went wrong".to_string());
}
