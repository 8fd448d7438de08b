use gossip_client::{parse_bootstrap, prepare_subscribe, GossipError, Topic, TOPIC_LEN};

fn valid_peer_id(seed: u8) -> String {
    iroh::SecretKey::from_bytes(&[seed; 32]).public().to_string()
}

#[test]
fn topic_of_exactly_32_bytes_is_accepted() {
    let topic = Topic::new(vec![1u8; 32]).unwrap();
    assert_eq!(topic.as_bytes(), &vec![1u8; 32]);
    assert_eq!(TOPIC_LEN, 32);
}

#[test]
fn short_and_long_topics_are_rejected() {
    assert!(matches!(
        Topic::new(vec![1u8; 31]),
        Err(GossipError::InvalidTopic)
    ));
    assert!(matches!(
        Topic::new(vec![1u8; 33]),
        Err(GossipError::InvalidTopic)
    ));
    assert!(matches!(
        Topic::new(Vec::new()),
        Err(GossipError::InvalidTopic)
    ));
}

#[test]
fn bootstrap_entries_that_parse_are_all_kept() {
    let entries = vec![valid_peer_id(1), valid_peer_id(2)];
    let peers = parse_bootstrap(&entries).unwrap();
    assert_eq!(peers.len(), 2);
    assert_eq!(peers[0].to_string(), entries[0]);
    assert_eq!(peers[1].to_string(), entries[1]);
}

#[test]
fn first_unparseable_bootstrap_entry_is_named() {
    let entries = vec![
        valid_peer_id(1),
        "not-a-peer-id".to_string(),
        "also-bad".to_string(),
    ];
    let err = parse_bootstrap(&entries).unwrap_err();
    assert!(matches!(
        err,
        GossipError::InvalidPeerAddress(ref entry) if entry == "not-a-peer-id"
    ));
}

#[test]
fn subscribe_validates_the_topic_before_the_bootstrap_list() {
    let bad_bootstrap = vec!["garbage".to_string()];
    let err = prepare_subscribe(vec![1u8; 7], &bad_bootstrap).unwrap_err();
    assert!(matches!(err, GossipError::InvalidTopic));
}

#[test]
fn subscribe_accepts_a_valid_topic_and_bootstrap() {
    let bootstrap = vec![valid_peer_id(9)];
    let request = prepare_subscribe(vec![7u8; 32], &bootstrap).unwrap();
    assert_eq!(request.topic.as_bytes(), &vec![7u8; 32]);
    assert_eq!(request.peers.len(), 1);
    assert_eq!(request.peers[0].to_string(), bootstrap[0]);
}

#[test]
fn subscribe_rejects_a_bad_bootstrap_entry_on_a_good_topic() {
    let bootstrap = vec!["garbage".to_string()];
    let err = prepare_subscribe(vec![7u8; 32], &bootstrap).unwrap_err();
    assert!(matches!(
        err,
        GossipError::InvalidPeerAddress(ref entry) if entry == "garbage"
    ));
}
