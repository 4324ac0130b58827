//! What the node's decisions amount to, stated over the lines, lists and
//! queues themselves.

use crate::behaviour::{discovery_dials, discovery_notices, invalid_count, valid_peers};
use crate::peers::peer_bytes;
use crate::commands::{
    input_effect, input_kind, input_outcome, peer_query, recipe_input_kind, InputKind,
    InputOutcome, PeerQueryError, RecipeInput,
};
use crate::net::{
    floodsub_connected, floodsub_sent, floodsub_targets, floodsub_topics, peer_id_from_bytes,
    peer_id_from_text,
};
use libp2p::floodsub::Floodsub;
use vstd::prelude::*;
use vstd::utf8::encode_utf8;

verus! {

/// Only the exact line "ls p" lists the peers; the lines starting with "ls c"
/// ask about a peer; every other line is a chat message.
pub proof fn lemma_input_kinds(line: Seq<char>)
    ensures
        (input_kind(line) == InputKind::ListPeers) <==> line == "ls p"@,
        (input_kind(line) == InputKind::CheckPeer) <==> "ls c"@.is_prefix_of(line),
        (input_kind(line) == InputKind::Publish) <==> (line != "ls p"@ && !"ls c"@.is_prefix_of(
            line,
        )),
{
    reveal_strlit("ls p");
    reveal_strlit("ls c");
    if line == "ls p"@ {
        assert(!"ls c"@.is_prefix_of(line)) by {
            if "ls c"@.is_prefix_of(line) {
                assert(line.subrange(0, 4)[3] == "ls c"@[3]);
            }
        }
    }
}

/// In the recipe command set, "ls p" alone lists the peers, and every other
/// line is taken by the first of "ls r", "create r", "publish r" that starts
/// it, whatever follows; a line that none starts is unknown.
pub proof fn lemma_recipe_input_kinds(line: Seq<char>)
    ensures
        (recipe_input_kind(line) == RecipeInput::ListPeers) <==> line == "ls p"@,
        "ls r"@.is_prefix_of(line) ==> recipe_input_kind(line) == RecipeInput::ListRecipes,
        "create r"@.is_prefix_of(line) ==> recipe_input_kind(line) == RecipeInput::CreateRecipe,
        "publish r"@.is_prefix_of(line) ==> recipe_input_kind(line)
            == RecipeInput::PublishRecipe,
        (line != "ls p"@ && !"ls r"@.is_prefix_of(line) && !"create r"@.is_prefix_of(line)
            && !"publish r"@.is_prefix_of(line)) ==> recipe_input_kind(line)
            == RecipeInput::Unknown,
{
    reveal_strlit("ls p");
    reveal_strlit("ls r");
    reveal_strlit("create r");
    reveal_strlit("publish r");
    if "ls r"@.is_prefix_of(line) {
        assert(line.subrange(0, 4)[3] == 'r');
    }
    if "create r"@.is_prefix_of(line) {
        assert(line.subrange(0, 8)[0] == 'c');
    }
    if "publish r"@.is_prefix_of(line) {
        assert(line.subrange(0, 9)[0] == 'p');
    }
}

/// A line "ls c " followed by the text of a peer identifier asks about that
/// peer, and the answer is whether some entry of the discovered list, at any
/// place, is that peer.
pub proof fn lemma_peer_question_answer(line: Seq<char>, discovered: Seq<Seq<u8>>, peer: Seq<u8>)
    requires
        "ls c "@.is_prefix_of(line),
        peer_id_from_text(line.skip(5)) == Some(peer),
    ensures
        peer_query(line) == Ok::<Seq<u8>, PeerQueryError>(peer),
        input_outcome(line, discovered) == Ok::<InputOutcome, PeerQueryError>(
            InputOutcome::PeerStatus(exists|k: int| 0 <= k < discovered.len() && discovered[k] == peer),
        ),
{
    reveal_strlit("ls c ");
    reveal_strlit("ls c");
    assert("ls c"@ =~= line.subrange(0, 4));
    lemma_input_kinds(line);
    let found = exists|k: int| 0 <= k < discovered.len() && discovered[k] == peer;
    assert(discovered.contains(peer) == found);
}

/// Handling a chat line queues messages on the topic "transactions" only:
/// each carries the line's UTF-8 bytes and goes to a connected target peer
/// subscribed to that topic; where the node is subscribed to it, every such
/// peer gets one; where it is not, nothing is queued.
pub proof fn lemma_chat_line_published(line: Seq<char>, before: Floodsub, after: Floodsub)
    requires
        line != "ls p"@,
        !"ls c"@.is_prefix_of(line),
        input_effect(line, before, after),
    ensures
        floodsub_sent(before).is_prefix_of(floodsub_sent(after)),
        forall|m: (Seq<u8>, Seq<Seq<char>>, Seq<u8>)|
            #[trigger] floodsub_sent(after).skip(floodsub_sent(before).len() as int).contains(m)
                ==> {
                &&& m.1 == seq!["transactions"@]
                &&& m.2 == encode_utf8(line)
                &&& floodsub_connected(before).dom().contains(m.0)
                &&& floodsub_targets(before).contains(m.0)
                &&& floodsub_connected(before)[m.0].contains("transactions"@)
            },
        floodsub_topics(before).contains("transactions"@) ==> forall|p: Seq<u8>|
            floodsub_connected(before).dom().contains(p) && floodsub_targets(before).contains(p)
                && #[trigger] floodsub_connected(before)[p].contains("transactions"@)
                ==> floodsub_sent(after).skip(floodsub_sent(before).len() as int).contains(
                (p, seq!["transactions"@], encode_utf8(line)),
            ),
        !floodsub_topics(before).contains("transactions"@) ==> floodsub_sent(after)
            == floodsub_sent(before),
{
    lemma_input_kinds(line);
    assert(crate::commands::TOPIC@ == "transactions"@);
    let added = floodsub_sent(after).skip(floodsub_sent(before).len() as int);
    if !floodsub_topics(before).contains("transactions"@) {
        if added.len() > 0 {
            assert(added.contains(added[0]));
        }
        assert(floodsub_sent(after) =~= floodsub_sent(before));
    }
}

/// Every entry of a discovery batch, wherever it stands, that reads as a peer
/// makes that peer a target; and every peer that the batch targets is read
/// from one of its entries.
pub proof fn lemma_discovered_peers_targeted(entries: Seq<Seq<u8>>, peer: Seq<u8>)
    ensures
        valid_peers(entries).contains(peer) <==> exists|k: int|
            0 <= k < entries.len() && peer_id_from_bytes(#[trigger] entries[k]) == Some(peer),
{
    if valid_peers(entries).contains(peer) {
        let e = choose|e: Seq<u8>| entries.contains(e) && peer_id_from_bytes(e) == Some(peer);
        let k = choose|k: int| 0 <= k < entries.len() && entries[k] == e;
        assert(peer_id_from_bytes(entries[k]) == Some(peer));
    }
    if exists|k: int| 0 <= k < entries.len() && peer_id_from_bytes(#[trigger] entries[k]) == Some(
        peer,
    ) {
        let k = choose|k: int|
            0 <= k < entries.len() && peer_id_from_bytes(#[trigger] entries[k]) == Some(peer);
        assert(entries.contains(entries[k]));
    }
}

/// Every peer that an entry of a discovery batch reads as, and that was not
/// targeted before, gets a dial queued.
pub proof fn lemma_discovered_peers_dialed(
    targets: Set<Seq<u8>>,
    entries: Seq<Seq<u8>>,
    k: int,
    peer: Seq<u8>,
)
    requires
        0 <= k < entries.len(),
        peer_id_from_bytes(entries[k]) == Some(peer),
        !targets.contains(peer),
    ensures
        discovery_dials(targets, entries).contains(peer),
    decreases entries.len(),
{
    let init = entries.drop_last();
    let prev = discovery_dials(targets, init);
    if k < entries.len() - 1 {
        assert(init[k] == entries[k]);
        lemma_discovered_peers_dialed(targets, init, k, peer);
    } else if targets.union(valid_peers(init)).contains(peer) {
        lemma_discovered_peers_targeted(init, peer);
        let j = choose|j: int| 0 <= j < init.len() && peer_id_from_bytes(#[trigger] init[j]) == Some(
            peer,
        );
        lemma_discovered_peers_dialed(targets, init, j, peer);
    }
    if prev.contains(peer) {
        let i = choose|i: int| 0 <= i < prev.len() && prev[i] == peer;
        match peer_id_from_bytes(entries.last()) {
            Some(id) => if !targets.union(valid_peers(init)).contains(id) {
                assert(prev.push(id)[i] == peer);
            },
            None => {},
        }
    } else {
        assert(prev.push(peer)[prev.len() as int] == peer);
    }
}

/// Every connected peer that an entry of a discovery batch reads as is told of
/// every subscribed topic.
pub proof fn lemma_discovered_peers_told(
    connected: Set<Seq<u8>>,
    topics: Seq<Seq<char>>,
    entries: Seq<Seq<u8>>,
    k: int,
    peer: Seq<u8>,
    j: int,
)
    requires
        0 <= k < entries.len(),
        peer_id_from_bytes(entries[k]) == Some(peer),
        connected.contains(peer),
        0 <= j < topics.len(),
    ensures
        discovery_notices(connected, topics, entries).contains((peer, topics[j], true)),
    decreases entries.len(),
{
    let init = entries.drop_last();
    let prev = discovery_notices(connected, topics, init);
    let n = (peer, topics[j], true);
    if k < entries.len() - 1 {
        assert(init[k] == entries[k]);
        lemma_discovered_peers_told(connected, topics, init, k, peer, j);
        let i = choose|i: int| 0 <= i < prev.len() && prev[i] == n;
        match peer_id_from_bytes(entries.last()) {
            Some(id) => if connected.contains(id) {
                assert((prev + crate::net::topic_notices(id, topics))[i] == n);
            },
            None => {},
        }
    } else {
        let extra = crate::net::topic_notices(peer, topics);
        assert(extra[j] == n);
        assert((prev + extra)[prev.len() + j] == n);
    }
}

/// Every dial a discovery batch queues is of a peer that one of its entries
/// reads as and that was not targeted before, and no peer is dialed twice.
pub proof fn lemma_discovery_dials_sound(targets: Set<Seq<u8>>, entries: Seq<Seq<u8>>)
    ensures
        discovery_dials(targets, entries).no_duplicates(),
        forall|i: int|
            0 <= i < discovery_dials(targets, entries).len() ==> {
                &&& !targets.contains(#[trigger] discovery_dials(targets, entries)[i])
                &&& valid_peers(entries).contains(discovery_dials(targets, entries)[i])
            },
    decreases entries.len(),
{
    if entries.len() > 0 {
        let init = entries.drop_last();
        let prev = discovery_dials(targets, init);
        lemma_discovery_dials_sound(targets, init);
        assert forall|p: Seq<u8>| valid_peers(init).contains(p) implies #[trigger] valid_peers(
            entries,
        ).contains(p) by {
            let e = choose|e: Seq<u8>| init.contains(e) && peer_id_from_bytes(e) == Some(p);
            let k = choose|k: int| 0 <= k < init.len() && init[k] == e;
            assert(entries[k] == e);
        }
        match peer_id_from_bytes(entries.last()) {
            Some(id) => if !targets.union(valid_peers(init)).contains(id) {
                assert(entries.contains(entries.last()));
                assert(valid_peers(entries).contains(id));
                let d = prev.push(id);
                assert forall|i: int, j: int|
                    0 <= i < d.len() && 0 <= j < d.len() && i != j implies d[i] != d[j] by {
                    if i == prev.len() as int {
                        assert(valid_peers(init).contains(prev[j]));
                    } else if j == prev.len() as int {
                        assert(valid_peers(init).contains(prev[i]));
                    }
                }
                assert forall|i: int| 0 <= i < d.len() implies {
                    &&& !targets.contains(#[trigger] d[i])
                    &&& valid_peers(entries).contains(d[i])
                } by {
                    if i < prev.len() {
                        assert(d[i] == prev[i]);
                    }
                }
            },
            None => {},
        }
    }
}

/// Every notice a discovery batch queues subscribes a connected peer, that one
/// of its entries reads as, to one of the subscribed topics.
pub proof fn lemma_discovery_notices_sound(
    connected: Set<Seq<u8>>,
    topics: Seq<Seq<char>>,
    entries: Seq<Seq<u8>>,
)
    ensures
        forall|i: int|
            0 <= i < discovery_notices(connected, topics, entries).len() ==> {
                let n = #[trigger] discovery_notices(connected, topics, entries)[i];
                &&& connected.contains(n.0)
                &&& valid_peers(entries).contains(n.0)
                &&& topics.contains(n.1)
                &&& n.2
            },
    decreases entries.len(),
{
    if entries.len() > 0 {
        let init = entries.drop_last();
        let prev = discovery_notices(connected, topics, init);
        lemma_discovery_notices_sound(connected, topics, init);
        assert forall|p: Seq<u8>| valid_peers(init).contains(p) implies #[trigger] valid_peers(
            entries,
        ).contains(p) by {
            let e = choose|e: Seq<u8>| init.contains(e) && peer_id_from_bytes(e) == Some(p);
            let k = choose|k: int| 0 <= k < init.len() && init[k] == e;
            assert(entries[k] == e);
        }
        match peer_id_from_bytes(entries.last()) {
            Some(id) => if connected.contains(id) {
                let extra = crate::net::topic_notices(id, topics);
                let all = prev + extra;
                assert(entries.contains(entries.last()));
                assert forall|i: int| 0 <= i < all.len() implies {
                    let n = #[trigger] all[i];
                    &&& connected.contains(n.0)
                    &&& valid_peers(entries).contains(n.0)
                    &&& topics.contains(n.1)
                    &&& n.2
                } by {
                    if i < prev.len() {
                        assert(all[i] == prev[i]);
                    } else {
                        let j = i - prev.len();
                        assert(all[i] == extra[j]);
                        assert(topics[j] == extra[j].1);
                    }
                }
            },
            None => {},
        }
    }
}

/// A list of peers taken as identifiers keeps its length, and each place holds
/// that entry's bytes.
pub proof fn lemma_peer_bytes(peers: Seq<Vec<u8>>)
    ensures
        peer_bytes(peers).len() == peers.len(),
        forall|k: int| 0 <= k < peers.len() ==> #[trigger] peer_bytes(peers)[k] == peers[k]@,
{
}

/// No more entries are passed over than the batch holds, and none exactly when
/// every entry, wherever it stands, reads as a peer.
pub proof fn lemma_passed_over(entries: Seq<Seq<u8>>)
    ensures
        invalid_count(entries) <= entries.len(),
        invalid_count(entries) == 0 <==> forall|k: int|
            0 <= k < entries.len() ==> peer_id_from_bytes(#[trigger] entries[k]) is Some,
    decreases entries.len(),
{
    if entries.len() > 0 {
        let init = entries.drop_last();
        lemma_passed_over(init);
        if invalid_count(entries) == 0 {
            assert forall|k: int| 0 <= k < entries.len() implies peer_id_from_bytes(
                #[trigger] entries[k],
            ) is Some by {
                if k < entries.len() - 1 {
                    assert(init[k] == entries[k]);
                }
            }
        }
        if forall|k: int|
            0 <= k < entries.len() ==> peer_id_from_bytes(#[trigger] entries[k]) is Some {
            assert forall|k: int| 0 <= k < init.len() implies peer_id_from_bytes(
                #[trigger] init[k],
            ) is Some by {
                assert(init[k] == entries[k]);
            }
            assert(peer_id_from_bytes(entries[entries.len() - 1]) is Some);
        }
    }
}

} // verus!
