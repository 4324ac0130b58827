//! Peers as the node sees them: identifiers taken as the bytes of their
//! multihash, as mDNS discovery lists them.

use vstd::prelude::*;

verus! {

/// The identifiers of a list of peers, each as its byte sequence.
pub open spec fn peer_bytes(peers: Seq<Vec<u8>>) -> Seq<Seq<u8>> {
    peers.map_values(|p: Vec<u8>| p@)
}

/// Whether two byte strings are equal.
pub fn same_bytes(a: &[u8], b: &[u8]) -> (r: bool)
    ensures
        r == (a@ == b@),
{
    let n = a.len();
    if n != b.len() {
        return false;
    }
    let mut i: usize = 0;
    while i < n
        invariant
            i <= n,
            n == a@.len(),
            n == b@.len(),
            forall|k: int| 0 <= k < i ==> a@[k] == b@[k],
        decreases n - i,
    {
        if a[i] != b[i] {
            return false;
        }
        i += 1;
    }
    assert(a@ =~= b@);
    true
}

/// Whether `peer` is among the discovered peers, as `mdns::Behaviour::has_node`
/// answers it: some discovered entry has that identifier. Entries and `peer`
/// are compared byte for byte, as written; identifiers written by
/// `PeerId::to_bytes` (as discovery's are) are equal exactly when their bytes
/// are.
pub fn has_node(discovered: &[Vec<u8>], peer: &[u8]) -> (found: bool)
    ensures
        found == peer_bytes(discovered@).contains(peer@),
{
    let n = discovered.len();
    let mut i: usize = 0;
    while i < n
        invariant
            i <= n,
            n == discovered@.len(),
            forall|k: int| 0 <= k < i ==> discovered@[k]@ != peer@,
        decreases n - i,
    {
        if same_bytes(discovered[i].as_slice(), peer) {
            assert(peer_bytes(discovered@)[i as int] == peer@);
            return true;
        }
        i += 1;
    }
    assert forall|k: int| 0 <= k < peer_bytes(discovered@).len() implies peer_bytes(
        discovered@,
    )[k] != peer@ by {
        assert(peer_bytes(discovered@)[k] == discovered@[k]@);
    }
    false
}

/// The peers of `s`, each once, in the order of their first appearance.
pub open spec fn distinct_peers(s: Seq<Seq<u8>>) -> Seq<Seq<u8>>
    decreases s.len(),
{
    if s.len() == 0 {
        s
    } else {
        let rest = distinct_peers(s.drop_last());
        if rest.contains(s.last()) {
            rest
        } else {
            rest.push(s.last())
        }
    }
}

/// The distinct listing holds exactly the peers of the list, none twice.
pub proof fn lemma_distinct_peers(s: Seq<Seq<u8>>)
    ensures
        distinct_peers(s).no_duplicates(),
        forall|p: Seq<u8>| #[trigger] distinct_peers(s).contains(p) <==> s.contains(p),
    decreases s.len(),
{
    if s.len() > 0 {
        let init = s.drop_last();
        lemma_distinct_peers(init);
        assert forall|p: Seq<u8>| #[trigger] s.contains(p) <==> init.contains(p) || p == s.last() by {
            if s.contains(p) {
                let k = choose|k: int| 0 <= k < s.len() && s[k] == p;
                if k < s.len() - 1 {
                    assert(init[k] == p);
                }
            }
            if init.contains(p) {
                let k = choose|k: int| 0 <= k < init.len() && init[k] == p;
                assert(s[k] == p);
            }
            if p == s.last() {
                assert(s[s.len() - 1] == p);
            }
        }
        let rest = distinct_peers(init);
        if !rest.contains(s.last()) {
            let d = rest.push(s.last());
            assert forall|p: Seq<u8>| #[trigger] d.contains(p) <==> rest.contains(p) || p == s.last() by {
                if d.contains(p) {
                    let k = choose|k: int| 0 <= k < d.len() && d[k] == p;
                    if k < rest.len() {
                        assert(rest[k] == p);
                    }
                }
                if rest.contains(p) {
                    let k = choose|k: int| 0 <= k < rest.len() && rest[k] == p;
                    assert(d[k] == p);
                }
                if p == s.last() {
                    assert(d[d.len() - 1] == p);
                }
            }
            assert forall|i: int, j: int| 0 <= i < d.len() && 0 <= j < d.len() && i != j implies d[i]
                != d[j] by {
                if i < rest.len() && j < rest.len() {
                } else if i < rest.len() {
                    assert(rest.contains(d[i]));
                } else {
                    assert(rest.contains(d[j]));
                }
            }
        }
    }
}

/// A list with no peer twice is its own distinct listing.
pub proof fn lemma_distinct_peers_of_distinct(s: Seq<Seq<u8>>)
    requires
        s.no_duplicates(),
    ensures
        distinct_peers(s) == s,
    decreases s.len(),
{
    if s.len() > 0 {
        let init = s.drop_last();
        assert(init.no_duplicates());
        lemma_distinct_peers_of_distinct(init);
        assert(!init.contains(s.last())) by {
            if init.contains(s.last()) {
                let k = choose|k: int| 0 <= k < init.len() && init[k] == s.last();
                assert(s[k] == s[s.len() - 1]);
            }
        }
        assert(init.push(s.last()) =~= s);
    }
}

/// Listing the distinct peers twice gives what listing them once gives.
pub proof fn lemma_distinct_peers_idempotent(s: Seq<Seq<u8>>)
    ensures
        distinct_peers(distinct_peers(s)) == distinct_peers(s),
{
    lemma_distinct_peers(s);
    lemma_distinct_peers_of_distinct(distinct_peers(s));
}

/// A peer is found by `has_node` exactly when the distinct listing shows it.
pub proof fn lemma_found_iff_listed(discovered: Seq<Vec<u8>>, peer: Seq<u8>)
    ensures
        peer_bytes(discovered).contains(peer) <==> distinct_peers(peer_bytes(discovered)).contains(
            peer,
        ),
{
    lemma_distinct_peers(peer_bytes(discovered));
}

/// The discovered peers, each once, in the order in which discovery first
/// lists them (the set of unique peers that the node logs).
pub fn unique_peers(discovered: &[Vec<u8>]) -> (unique: Vec<Vec<u8>>)
    ensures
        peer_bytes(unique@) == distinct_peers(peer_bytes(discovered@)),
{
    let n = discovered.len();
    let mut unique: Vec<Vec<u8>> = Vec::new();
    let mut i: usize = 0;
    while i < n
        invariant
            i <= n,
            n == discovered@.len(),
            peer_bytes(unique@) == distinct_peers(peer_bytes(discovered@).take(i as int)),
        decreases n - i,
    {
        let ghost all = peer_bytes(discovered@);
        assert(all.take(i + 1).drop_last() =~= all.take(i as int));
        assert(all.take(i + 1).last() == discovered@[i as int]@);
        if !has_node(unique.as_slice(), discovered[i].as_slice()) {
            let copy = discovered[i].clone();
            assert(copy@ =~= discovered@[i as int]@);
            let ghost before = unique@;
            unique.push(copy);
            assert(peer_bytes(unique@) =~= peer_bytes(before).push(copy@));
        }
        i += 1;
    }
    assert(peer_bytes(discovered@).take(n as int) =~= peer_bytes(discovered@));
    unique
}

} // verus!
