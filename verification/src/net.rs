//! The libp2p items that the node's logic calls: peer identifiers, the
//! floodsub behaviour and the events that discovery and floodsub report.
//! Each item here is trusted: its contract restates what libp2p's source shows.

use libp2p::floodsub::{Floodsub, Topic};
use libp2p::mdns::Event as MdnsEvent;
use libp2p::PeerId;
use std::str::FromStr;
use vstd::prelude::*;

verus! {

/// libp2p's peer identifier, carried through unchanged.
#[verifier::external_type_specification]
#[verifier::external_body]
pub struct ExPeerId(libp2p::PeerId);

/// libp2p's floodsub network behaviour.
#[verifier::external_type_specification]
#[verifier::external_body]
pub struct ExFloodsub(libp2p::floodsub::Floodsub);

/// The events that floodsub hands to the swarm.
#[verifier::external_type_specification]
#[verifier::external_body]
pub struct ExFloodsubEvent(libp2p::floodsub::FloodsubEvent);

/// The events that mDNS discovery hands to the swarm.
#[verifier::external_type_specification]
#[verifier::external_body]
pub struct ExMdnsEvent(MdnsEvent);

/// What `PeerId::from_str` gives for a text, the peer identifier taken as the
/// bytes of its multihash (`PeerId::to_bytes`), or `None` where the text is
/// refused (not base-58, or not a multihash that names a peer).
pub uninterp spec fn peer_id_from_text(text: Seq<char>) -> Option<Seq<u8>>;

/// What `PeerId::from_bytes` gives for some bytes, the peer identifier taken
/// as the bytes that `PeerId::to_bytes` writes for it, or `None` where the
/// bytes are refused. (The bytes written back need not be the bytes read.)
pub uninterp spec fn peer_id_from_bytes(bytes: Seq<u8>) -> Option<Seq<u8>>;

/// The topics a floodsub behaviour is subscribed to, by topic id, in the
/// order in which they were subscribed.
pub uninterp spec fn floodsub_topics(f: Floodsub) -> Seq<Seq<char>>;

/// The peers that a floodsub behaviour sends to (its partial view), by the
/// bytes that `PeerId::to_bytes` writes for them.
pub uninterp spec fn floodsub_targets(f: Floodsub) -> Set<Seq<u8>>;

/// The peers a floodsub behaviour is connected to, by identifier bytes, each
/// with the ids of the topics it has told us it is subscribed to.
pub uninterp spec fn floodsub_connected(f: Floodsub) -> Map<Seq<u8>, Seq<Seq<char>>>;

/// The messages waiting in a floodsub behaviour's queue of outgoing events,
/// in queue order: for each message that an event hands to a peer's handler,
/// the peer's identifier bytes, the ids of the message's topics and its data.
/// Events that carry no message (dials, subscription notices) add nothing.
pub uninterp spec fn floodsub_sent(f: Floodsub) -> Seq<(Seq<u8>, Seq<Seq<char>>, Seq<u8>)>;

/// The dials waiting in a floodsub behaviour's queue of outgoing events, in
/// queue order, each by the identifier bytes of the peer to dial.
pub uninterp spec fn floodsub_dials(f: Floodsub) -> Seq<Seq<u8>>;

/// The subscription notices waiting in a floodsub behaviour's queue of
/// outgoing events, in queue order: for each subscription change that an
/// event hands to a peer's handler, the peer's identifier bytes, the topic id
/// and whether it subscribes (`true`) or unsubscribes (`false`).
pub uninterp spec fn floodsub_notices(f: Floodsub) -> Seq<(Seq<u8>, Seq<char>, bool)>;

/// The identifier bytes of the local peer, which floodsub names as the source
/// of the messages it publishes.
pub uninterp spec fn floodsub_local_peer(f: Floodsub) -> Seq<u8>;

/// The topic list after subscribing to `topic`: unchanged where it is already
/// there, else `topic` added at the end.
pub open spec fn topics_after_subscribe(topics: Seq<Seq<char>>, topic: Seq<char>) -> Seq<Seq<char>> {
    if topics.contains(topic) {
        topics
    } else {
        topics.push(topic)
    }
}

/// The peers a message on `topic` goes to: connected peers that floodsub
/// sends to and that are subscribed to the topic.
pub open spec fn publish_recipients(f: Floodsub, topic: Seq<char>) -> Set<Seq<u8>> {
    Set::new(
        |p: Seq<u8>|
            floodsub_connected(f).dom().contains(p) && floodsub_targets(f).contains(p)
                && floodsub_connected(f)[p].contains(topic),
    )
}

/// `after` is `before` once `data` has been published on `topic`: where the
/// topic is subscribed, one message with exactly that topic and data is
/// queued for each recipient (in some order), else nothing is queued; what
/// was queued before stays in front.
pub open spec fn published(before: Floodsub, after: Floodsub, topic: Seq<char>, data: Seq<u8>) -> bool {
    let added = floodsub_sent(after).skip(floodsub_sent(before).len() as int);
    &&& floodsub_sent(before).is_prefix_of(floodsub_sent(after))
    &&& added.no_duplicates()
    &&& forall|m: (Seq<u8>, Seq<Seq<char>>, Seq<u8>)|
        #[trigger] added.contains(m) <==> {
            &&& floodsub_topics(before).contains(topic)
            &&& m.1 == seq![topic]
            &&& m.2 == data
            &&& publish_recipients(before, topic).contains(m.0)
        }
}

/// `after` is `before` once a subscription to `topic` has been announced:
/// one notice that subscribes to the topic is queued for each connected peer
/// (in some order); what was queued before stays in front.
pub open spec fn announced(before: Floodsub, after: Floodsub, topic: Seq<char>) -> bool {
    let added = floodsub_notices(after).skip(floodsub_notices(before).len() as int);
    &&& floodsub_notices(before).is_prefix_of(floodsub_notices(after))
    &&& added.no_duplicates()
    &&& forall|n: (Seq<u8>, Seq<char>, bool)|
        #[trigger] added.contains(n) <==> {
            &&& floodsub_connected(before).dom().contains(n.0)
            &&& n.1 == topic
            &&& n.2
        }
}

/// The subscription notices that telling `peer` of `topics` queues: one per
/// topic, in order.
pub open spec fn topic_notices(peer: Seq<u8>, topics: Seq<Seq<char>>) -> Seq<(Seq<u8>, Seq<char>, bool)> {
    topics.map_values(|t: Seq<char>| (peer, t, true))
}

/// Calls `PeerId::from_str` and hands back the identifier's bytes. Trusted:
/// the result is named `peer_id_from_text` of the text, and the bytes that
/// `to_bytes` writes are read back by `PeerId::from_bytes` as themselves. What
/// base-58 and multihash decoding compute is not restated here.
#[verifier::external_body]
pub(crate) fn parse_peer_id(text: &str) -> (r: Option<Vec<u8>>)
    ensures
        match r {
            Some(bytes) => peer_id_from_text(text@) == Some(bytes@),
            None => peer_id_from_text(text@) is None,
        },
        r matches Some(bytes) ==> peer_id_from_bytes(bytes@) == Some(bytes@),
{
    match PeerId::from_str(text) {
        Ok(peer) => Some(peer.to_bytes()),
        Err(_) => None,
    }
}

/// Calls `Floodsub::new` on the peer that `PeerId::from_bytes` reads from
/// `local_peer_id`, or gives `None` where the bytes are refused. Trusted: a
/// new behaviour has that peer as its local peer, is subscribed to no topic,
/// sends to no peer, is connected to none and has queued no message, dial or
/// notice.
#[verifier::external_body]
pub(crate) fn floodsub_new(local_peer_id: &[u8]) -> (r: Option<Floodsub>)
    ensures
        match peer_id_from_bytes(local_peer_id@) {
            Some(local) => r matches Some(f) && {
                &&& floodsub_local_peer(f) == local
                &&& floodsub_topics(f) == Seq::<Seq<char>>::empty()
                &&& floodsub_targets(f) == Set::<Seq<u8>>::empty()
                &&& floodsub_connected(f) == Map::<Seq<u8>, Seq<Seq<char>>>::empty()
                &&& floodsub_sent(f) == Seq::<(Seq<u8>, Seq<Seq<char>>, Seq<u8>)>::empty()
                &&& floodsub_dials(f) == Seq::<Seq<u8>>::empty()
                &&& floodsub_notices(f) == Seq::<(Seq<u8>, Seq<char>, bool)>::empty()
            },
            None => r is None,
        },
{
    match PeerId::from_bytes(local_peer_id) {
        Ok(peer) => Some(Floodsub::new(peer)),
        Err(_) => None,
    }
}

/// Calls `Floodsub::subscribe` with `Topic::new(topic)`. Trusted: it answers
/// `false` and changes nothing where a topic with that id is already
/// subscribed, else it adds the topic at the end, queues a notice of it for
/// each connected peer and answers `true`. It queues no message and no dial;
/// targets, connections and the local peer stay as they were.
#[verifier::external_body]
pub(crate) fn floodsub_subscribe(f: &mut Floodsub, topic: &str) -> (added: bool)
    ensures
        added == !floodsub_topics(*old(f)).contains(topic@),
        floodsub_topics(*final(f)) == topics_after_subscribe(floodsub_topics(*old(f)), topic@),
        floodsub_targets(*final(f)) == floodsub_targets(*old(f)),
        floodsub_connected(*final(f)) == floodsub_connected(*old(f)),
        floodsub_sent(*final(f)) == floodsub_sent(*old(f)),
        floodsub_local_peer(*final(f)) == floodsub_local_peer(*old(f)),
        floodsub_dials(*final(f)) == floodsub_dials(*old(f)),
        if added {
            announced(*old(f), *final(f), topic@)
        } else {
            floodsub_notices(*final(f)) == floodsub_notices(*old(f))
        },
{
    f.subscribe(Topic::new(topic))
}

/// Calls `Floodsub::publish` with `Topic::new(topic)` and a copy of `data`.
/// Trusted: where the topic is subscribed, one message with this topic and
/// data is queued for each connected target peer subscribed to the topic (in
/// the order the connection map is walked); else nothing is queued. Topics,
/// targets, connections and the local peer stay as they were, and no dial or
/// notice is queued. The random
/// sequence number of the message and the filter of seen messages are not
/// described.
#[verifier::external_body]
pub(crate) fn floodsub_publish(f: &mut Floodsub, topic: &str, data: &[u8])
    ensures
        published(*old(f), *final(f), topic@, data@),
        floodsub_topics(*final(f)) == floodsub_topics(*old(f)),
        floodsub_targets(*final(f)) == floodsub_targets(*old(f)),
        floodsub_connected(*final(f)) == floodsub_connected(*old(f)),
        floodsub_local_peer(*final(f)) == floodsub_local_peer(*old(f)),
        floodsub_dials(*final(f)) == floodsub_dials(*old(f)),
        floodsub_notices(*final(f)) == floodsub_notices(*old(f)),
{
    f.publish(Topic::new(topic), data.to_vec())
}

/// Calls `Floodsub::add_node_to_partial_view` with the peer that
/// `PeerId::from_bytes` reads from `peer`. Trusted: where the bytes are read
/// as a peer, that peer (by the bytes `to_bytes` writes for it) joins the
/// peers floodsub sends to and `true` comes back: where the peer is connected,
/// a notice of each subscribed topic, in order, is queued for it; where it
/// was not a target yet, a dial of it is queued. Else nothing changes and
/// `false` comes back. No message is queued; topics, connections and the
/// local peer stay as they were.
#[verifier::external_body]
pub(crate) fn floodsub_add_node(f: &mut Floodsub, peer: &[u8]) -> (accepted: bool)
    ensures
        accepted == peer_id_from_bytes(peer@) is Some,
        floodsub_targets(*final(f)) == match peer_id_from_bytes(peer@) {
            Some(id) => floodsub_targets(*old(f)).insert(id),
            None => floodsub_targets(*old(f)),
        },
        floodsub_topics(*final(f)) == floodsub_topics(*old(f)),
        floodsub_connected(*final(f)) == floodsub_connected(*old(f)),
        floodsub_sent(*final(f)) == floodsub_sent(*old(f)),
        floodsub_local_peer(*final(f)) == floodsub_local_peer(*old(f)),
        floodsub_dials(*final(f)) == match peer_id_from_bytes(peer@) {
            Some(id) => if floodsub_targets(*old(f)).contains(id) {
                floodsub_dials(*old(f))
            } else {
                floodsub_dials(*old(f)).push(id)
            },
            None => floodsub_dials(*old(f)),
        },
        floodsub_notices(*final(f)) == match peer_id_from_bytes(peer@) {
            Some(id) => if floodsub_connected(*old(f)).dom().contains(id) {
                floodsub_notices(*old(f)) + topic_notices(id, floodsub_topics(*old(f)))
            } else {
                floodsub_notices(*old(f))
            },
            None => floodsub_notices(*old(f)),
        },
{
    match PeerId::from_bytes(peer) {
        Ok(peer_id) => {
            f.add_node_to_partial_view(peer_id);
            true
        },
        Err(_) => false,
    }
}

} // verus!
