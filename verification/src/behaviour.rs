//! The node's network behaviour as far as it is the node's own: the floodsub
//! subscription it starts with, and the value types it hands around.

use crate::commands::TOPIC;
use crate::net::{
    announced, floodsub_add_node, floodsub_connected, floodsub_dials, floodsub_local_peer,
    floodsub_new, floodsub_notices, floodsub_sent, floodsub_subscribe, floodsub_targets,
    floodsub_topics, peer_id_from_bytes, topic_notices, topics_after_subscribe,
};
use crate::peers::peer_bytes;
use libp2p::floodsub::{Floodsub, FloodsubEvent};
use libp2p::mdns::Event as MdnsEvent;
use libp2p::PeerId;
use vstd::prelude::*;

verus! {

/// The floodsub half of the node's behaviour for the local peer whose
/// identifier is read from `local_peer_id`: subscribed to the chat topic and
/// to nothing else, with no target, no connected peer, and no message, dial
/// or notice queued.
/// `None` where the bytes are not a peer identifier.
pub fn chat_floodsub(local_peer_id: &[u8]) -> (r: Option<Floodsub>)
    ensures
        match peer_id_from_bytes(local_peer_id@) {
            Some(local) => r matches Some(floodsub) && {
                &&& floodsub_local_peer(floodsub) == local
                &&& floodsub_topics(floodsub) == seq![TOPIC@]
                &&& floodsub_targets(floodsub) == Set::<Seq<u8>>::empty()
                &&& floodsub_connected(floodsub) == Map::<Seq<u8>, Seq<Seq<char>>>::empty()
                &&& floodsub_sent(floodsub) == Seq::<(Seq<u8>, Seq<Seq<char>>, Seq<u8>)>::empty()
                &&& floodsub_dials(floodsub) == Seq::<Seq<u8>>::empty()
                &&& floodsub_notices(floodsub) == Seq::<(Seq<u8>, Seq<char>, bool)>::empty()
            },
            None => r is None,
        },
{
    match floodsub_new(local_peer_id) {
        Some(floodsub) => {
            let mut floodsub = floodsub;
            let ghost fresh = floodsub;
            let _ = floodsub_subscribe(&mut floodsub, TOPIC);
            assert(floodsub_topics(floodsub) =~= seq![TOPIC@]);
            assert(floodsub_notices(floodsub).len() == 0) by {
                let added = floodsub_notices(floodsub).skip(0);
                assert(added =~= floodsub_notices(floodsub));
                if added.len() > 0 {
                    assert(added.contains(added[0]));
                    assert(!floodsub_connected(fresh).dom().contains(added[0].0));
                }
            }
            Some(floodsub)
        },
        None => None,
    }
}

/// Subscribes to `topic`: `true` where that was new (the topic is added and
/// announced to every connected peer), `false` (and nothing changes) where
/// the topic was already subscribed.
pub fn subscribe_topic(floodsub: &mut Floodsub, topic: &str) -> (added: bool)
    ensures
        added == !floodsub_topics(*old(floodsub)).contains(topic@),
        floodsub_topics(*final(floodsub)) == topics_after_subscribe(
            floodsub_topics(*old(floodsub)),
            topic@,
        ),
        floodsub_targets(*final(floodsub)) == floodsub_targets(*old(floodsub)),
        floodsub_connected(*final(floodsub)) == floodsub_connected(*old(floodsub)),
        floodsub_sent(*final(floodsub)) == floodsub_sent(*old(floodsub)),
        floodsub_local_peer(*final(floodsub)) == floodsub_local_peer(*old(floodsub)),
        floodsub_dials(*final(floodsub)) == floodsub_dials(*old(floodsub)),
        if added {
            announced(*old(floodsub), *final(floodsub), topic@)
        } else {
            floodsub_notices(*final(floodsub)) == floodsub_notices(*old(floodsub))
        },
{
    floodsub_subscribe(floodsub, topic)
}

/// The peers that the discovered entries are read as, each by the bytes its
/// identifier writes.
pub open spec fn valid_peers(discovered: Seq<Seq<u8>>) -> Set<Seq<u8>> {
    Set::new(|id: Seq<u8>| exists|p: Seq<u8>| discovered.contains(p) && peer_id_from_bytes(p) == Some(id))
}

/// How many entries of the list are not peer identifiers.
pub open spec fn invalid_count(s: Seq<Seq<u8>>) -> nat
    decreases s.len(),
{
    if s.len() == 0 {
        0
    } else {
        invalid_count(s.drop_last()) + if peer_id_from_bytes(s.last()) is Some {
            0nat
        } else {
            1nat
        }
    }
}

/// The dials that discovering `entries` queues when `targets` are already
/// targeted: one for each peer the entries are read as, in the order of its
/// first entry, unless it was targeted already.
pub open spec fn discovery_dials(targets: Set<Seq<u8>>, entries: Seq<Seq<u8>>) -> Seq<Seq<u8>>
    decreases entries.len(),
{
    if entries.len() == 0 {
        Seq::empty()
    } else {
        let init = entries.drop_last();
        let prev = discovery_dials(targets, init);
        match peer_id_from_bytes(entries.last()) {
            Some(id) => if targets.union(valid_peers(init)).contains(id) {
                prev
            } else {
                prev.push(id)
            },
            None => prev,
        }
    }
}

/// The subscription notices that discovering `entries` queues: for each
/// entry read as a peer that is connected, a notice of each subscribed topic.
pub open spec fn discovery_notices(
    connected: Set<Seq<u8>>,
    topics: Seq<Seq<char>>,
    entries: Seq<Seq<u8>>,
) -> Seq<(Seq<u8>, Seq<char>, bool)>
    decreases entries.len(),
{
    if entries.len() == 0 {
        Seq::empty()
    } else {
        let prev = discovery_notices(connected, topics, entries.drop_last());
        match peer_id_from_bytes(entries.last()) {
            Some(id) => if connected.contains(id) {
                prev + topic_notices(id, topics)
            } else {
                prev
            },
            None => prev,
        }
    }
}

/// Makes every peer that discovery reports one that floodsub sends to. Each
/// entry is read with `PeerId::from_bytes`, so the peer targeted is the one
/// the bytes name, by the bytes `to_bytes` writes for it.
/// Entries that are not peer identifiers are passed over; their count comes
/// back. Each peer that was not targeted yet gets a dial queued, and each
/// connected peer gets a notice of every subscribed topic, as floodsub does.
/// Subscriptions, connections, the queue of messages and the local peer stay
/// as they were.
pub fn on_peers_discovered(floodsub: &mut Floodsub, discovered: &[Vec<u8>]) -> (passed_over: usize)
    ensures
        floodsub_targets(*final(floodsub)) == floodsub_targets(*old(floodsub)).union(
            valid_peers(peer_bytes(discovered@)),
        ),
        floodsub_topics(*final(floodsub)) == floodsub_topics(*old(floodsub)),
        floodsub_connected(*final(floodsub)) == floodsub_connected(*old(floodsub)),
        floodsub_sent(*final(floodsub)) == floodsub_sent(*old(floodsub)),
        floodsub_local_peer(*final(floodsub)) == floodsub_local_peer(*old(floodsub)),
        floodsub_dials(*final(floodsub)) == floodsub_dials(*old(floodsub)) + discovery_dials(
            floodsub_targets(*old(floodsub)),
            peer_bytes(discovered@),
        ),
        floodsub_notices(*final(floodsub)) == floodsub_notices(*old(floodsub))
            + discovery_notices(
            floodsub_connected(*old(floodsub)).dom(),
            floodsub_topics(*old(floodsub)),
            peer_bytes(discovered@),
        ),
        passed_over == invalid_count(peer_bytes(discovered@)),
{
    let n = discovered.len();
    let mut passed_over: usize = 0;
    let mut i: usize = 0;
    while i < n
        invariant
            i <= n,
            n == discovered@.len(),
            passed_over <= i,
            floodsub_targets(*floodsub) == floodsub_targets(*old(floodsub)).union(
                valid_peers(peer_bytes(discovered@).take(i as int)),
            ),
            floodsub_topics(*floodsub) == floodsub_topics(*old(floodsub)),
            floodsub_connected(*floodsub) == floodsub_connected(*old(floodsub)),
            floodsub_sent(*floodsub) == floodsub_sent(*old(floodsub)),
            floodsub_local_peer(*floodsub) == floodsub_local_peer(*old(floodsub)),
            floodsub_dials(*floodsub) == floodsub_dials(*old(floodsub)) + discovery_dials(
                floodsub_targets(*old(floodsub)),
                peer_bytes(discovered@).take(i as int),
            ),
            floodsub_notices(*floodsub) == floodsub_notices(*old(floodsub)) + discovery_notices(
                floodsub_connected(*old(floodsub)).dom(),
                floodsub_topics(*old(floodsub)),
                peer_bytes(discovered@).take(i as int),
            ),
            passed_over == invalid_count(peer_bytes(discovered@).take(i as int)),
        decreases n - i,
    {
        let ghost all = peer_bytes(discovered@);
        let ghost before = all.take(i as int);
        let ghost after = all.take(i + 1);
        assert(after.drop_last() =~= before);
        assert(after.last() == discovered@[i as int]@);
        assert forall|p: Seq<u8>| #[trigger] after.contains(p) <==> before.contains(p) || p
            == discovered@[i as int]@ by {
            if after.contains(p) {
                let k = choose|k: int| 0 <= k < after.len() && after[k] == p;
                if k < i {
                    assert(before[k] == p);
                }
            }
            if before.contains(p) {
                let k = choose|k: int| 0 <= k < before.len() && before[k] == p;
                assert(after[k] == p);
            }
            if p == discovered@[i as int]@ {
                assert(after[i as int] == p);
            }
        }
        let ghost dials_before = floodsub_dials(*floodsub);
        let ghost notices_before = floodsub_notices(*floodsub);
        let accepted = floodsub_add_node(floodsub, discovered[i].as_slice());
        if !accepted {
            passed_over = passed_over + 1;
        }
        let ghost d0 = floodsub_dials(*old(floodsub));
        let ghost dd = discovery_dials(floodsub_targets(*old(floodsub)), before);
        let ghost n0 = floodsub_notices(*old(floodsub));
        let ghost nn = discovery_notices(
            floodsub_connected(*old(floodsub)).dom(),
            floodsub_topics(*old(floodsub)),
            before,
        );
        proof {
            if let Some(id) = peer_id_from_bytes(after.last()) {
                assert((d0 + dd).push(id) =~= d0 + dd.push(id));
                let extra = topic_notices(id, floodsub_topics(*old(floodsub)));
                assert((n0 + nn) + extra =~= n0 + (nn + extra));
            }
        }
        assert(floodsub_targets(*floodsub) =~= floodsub_targets(*old(floodsub)).union(
            valid_peers(after),
        ));
        i += 1;
    }
    assert(peer_bytes(discovered@).take(n as int) =~= peer_bytes(discovered@));
    passed_over
}

/// After any subscription to a topic the topic is subscribed, and a second
/// subscription to it is refused and changes nothing.
pub proof fn lemma_subscribe_idempotent(topics: Seq<Seq<char>>, topic: Seq<char>)
    ensures
        topics_after_subscribe(topics, topic).contains(topic),
        topics_after_subscribe(topics_after_subscribe(topics, topic), topic)
            == topics_after_subscribe(topics, topic),
{
    if !topics.contains(topic) {
        assert(topics.push(topic)[topics.len() as int] == topic);
    }
}

/// A subscription keeps every topic that was subscribed before, in its place.
pub proof fn lemma_subscribe_keeps_topics(topics: Seq<Seq<char>>, topic: Seq<char>)
    ensures
        topics.is_prefix_of(topics_after_subscribe(topics, topic)),
{
    assert(topics =~= topics_after_subscribe(topics, topic).subrange(0, topics.len() as int));
}

/// A chat message as it is stored: its text and the peer it came from.
#[derive(Debug)]
pub struct MessageStore {
    pub mmessage: String,
    pub peer: PeerId,
}

/// The events the node reacts to: floodsub's, discovery's, and a line typed
/// by the user.
#[derive(Debug)]
pub enum Event {
    Floodsub(FloodsubEvent),
    Mdns(MdnsEvent),
    Input(String),
}

impl From<FloodsubEvent> for Event {
    fn from(value: FloodsubEvent) -> (event: Self) {
        Event::Floodsub(value)
    }
}

impl vstd::std_specs::convert::FromSpecImpl<FloodsubEvent> for Event {
    open spec fn obeys_from_spec() -> bool {
        true
    }

    open spec fn from_spec(v: FloodsubEvent) -> Self {
        Event::Floodsub(v)
    }
}

impl From<MdnsEvent> for Event {
    fn from(event: MdnsEvent) -> (wrapped: Self) {
        Event::Mdns(event)
    }
}

impl vstd::std_specs::convert::FromSpecImpl<MdnsEvent> for Event {
    open spec fn obeys_from_spec() -> bool {
        true
    }

    open spec fn from_spec(v: MdnsEvent) -> Self {
        Event::Mdns(v)
    }
}

} // verus!
