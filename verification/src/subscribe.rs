use vstd::prelude::*;

use crate::error::GossipError;

verus! {

/// The exact length, in bytes, of a topic identifier.
pub const TOPIC_LEN: usize = 32;

/// `iroh::PublicKey` (also known as `EndpointId`) is the parsed identifier
/// of a swarm participant; the library carries such values through to the
/// engine without looking inside them.
#[verifier::external_type_specification]
#[verifier::external_body]
pub struct ExPublicKey(iroh::PublicKey);

/// Whether a string is the valid textual form of a peer identifier; what
/// `iroh::PublicKey::from_str` accepts depends on the characters alone.
pub uninterp spec fn peer_id_parses(s: Seq<char>) -> bool;

/// Relies on iroh's `PublicKey::from_str`: parses the textual (hex or
/// base32) form of a peer identifier, succeeding or failing by the string
/// alone.
#[verifier::external_body]
fn parse_peer_id(s: &String) -> (r: Option<iroh::PublicKey>)
    ensures
        r is Some <==> peer_id_parses(s@),
{
    s.parse().ok()
}

/// A validated topic identifier: exactly [`TOPIC_LEN`] bytes, immutable
/// once constructed.
#[derive(Debug)]
pub struct Topic {
    bytes: Vec<u8>,
}

impl Topic {
    /// The bytes of the identifier.
    pub closed spec fn spec_bytes(&self) -> Seq<u8> {
        self.bytes@
    }

    /// The invariant every constructed topic satisfies.
    pub open spec fn wf(&self) -> bool {
        self.spec_bytes().len() == TOPIC_LEN
    }

    /// Validates a topic identifier: accepted exactly when it is
    /// [`TOPIC_LEN`] bytes long, rejected with `InvalidTopic` otherwise.
    pub fn new(bytes: Vec<u8>) -> (r: Result<Topic, GossipError>)
        ensures
            r is Ok <==> bytes@.len() == TOPIC_LEN,
            r matches Ok(t) ==> t.wf() && t.spec_bytes() == bytes@,
            bytes@.len() != TOPIC_LEN ==> r == Err::<Topic, GossipError>(GossipError::InvalidTopic),
    {
        if bytes.len() == TOPIC_LEN {
            Ok(Topic { bytes })
        } else {
            Err(GossipError::InvalidTopic)
        }
    }

    /// The bytes of the identifier, for handing to the engine.
    pub fn as_bytes(&self) -> (b: &Vec<u8>)
        ensures
            b@ == self.spec_bytes(),
    {
        &self.bytes
    }
}

/// Parses every bootstrap entry as a peer identifier. All entries parse
/// exactly when the whole list is accepted; otherwise the first entry that
/// does not parse is named in the error and nothing is returned.
pub fn parse_bootstrap(bootstrap: &Vec<String>) -> (r: Result<Vec<iroh::PublicKey>, GossipError>)
    ensures
        r is Ok <==> (forall|i: int|
            0 <= i < bootstrap@.len() ==> peer_id_parses(#[trigger] bootstrap@[i]@)),
        r matches Ok(peers) ==> peers@.len() == bootstrap@.len(),
        r matches Err(e) ==> (exists|i: int|
            {
                &&& 0 <= i < bootstrap@.len()
                &&& !peer_id_parses(bootstrap@[i]@)
                &&& forall|j: int| 0 <= j < i ==> peer_id_parses(#[trigger] bootstrap@[j]@)
                &&& e matches GossipError::InvalidPeerAddress(s) && s@ == bootstrap@[i]@
            }),
{
    let mut peers: Vec<iroh::PublicKey> = Vec::new();
    let mut i: usize = 0;
    while i < bootstrap.len()
        invariant
            i <= bootstrap@.len(),
            peers@.len() == i,
            forall|j: int| 0 <= j < i ==> peer_id_parses(#[trigger] bootstrap@[j]@),
        decreases bootstrap@.len() - i,
    {
        match parse_peer_id(&bootstrap[i]) {
            Some(peer) => {
                peers.push(peer);
            }
            None => {
                return Err(GossipError::InvalidPeerAddress(bootstrap[i].clone()));
            }
        }
        i += 1;
    }
    Ok(peers)
}

/// A validated subscription request: what the engine is asked to join.
#[derive(Debug)]
pub struct SubscribeRequest {
    /// The validated topic identifier.
    pub topic: Topic,
    /// The parsed bootstrap peers, one per bootstrap entry, in order.
    pub peers: Vec<iroh::PublicKey>,
}

/// The validation `subscribe` performs before any background work starts
/// and before the external engine is contacted: the topic must be exactly
/// [`TOPIC_LEN`] bytes — checked first — and every bootstrap entry must
/// parse as a peer identifier. Only a request that passes both checks is
/// handed to the engine.
pub fn prepare_subscribe(topic: Vec<u8>, bootstrap: &Vec<String>) -> (r: Result<
    SubscribeRequest,
    GossipError,
>)
    ensures
        r is Ok <==> (topic@.len() == TOPIC_LEN && (forall|i: int|
            0 <= i < bootstrap@.len() ==> peer_id_parses(#[trigger] bootstrap@[i]@))),
        topic@.len() != TOPIC_LEN ==> (r matches Err(e) && e is InvalidTopic),
        topic@.len() == TOPIC_LEN ==> (r matches Err(e) ==> (exists|i: int|
            {
                &&& 0 <= i < bootstrap@.len()
                &&& !peer_id_parses(bootstrap@[i]@)
                &&& forall|j: int| 0 <= j < i ==> peer_id_parses(#[trigger] bootstrap@[j]@)
                &&& e matches GossipError::InvalidPeerAddress(s) && s@ == bootstrap@[i]@
            })),
        r matches Ok(req) ==> {
            &&& req.topic.wf()
            &&& req.topic.spec_bytes() == topic@
            &&& req.peers@.len() == bootstrap@.len()
        },
{
    let topic = Topic::new(topic)?;
    let peers = parse_bootstrap(bootstrap)?;
    Ok(SubscribeRequest { topic, peers })
}

} // verus!
