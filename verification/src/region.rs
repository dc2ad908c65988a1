//! Region descriptors: identity, peer membership, epoch, and the key-range
//! predicates over them.
//!
//! A region governs the half-open key range `[start_key, end_key)`, where an
//! empty `end_key` stands for the upper end of the key space. Peers are the
//! region's replicas; within a region no two peers share a store.

use vstd::prelude::*;

use crate::errors::Error;
use crate::keys::{bytes_eq, bytes_lt, lemma_lex_lt_trans, lemma_lex_trichotomy, lex_lt};

verus! {

/// A region's epoch: `version` increases on every range change (split,
/// merge), `conf_ver` on every membership change.
#[derive(Clone, Copy, PartialEq, Eq, Structural, Debug)]
pub struct RegionEpoch {
    pub conf_ver: u64,
    pub version: u64,
}

/// The role a peer plays in its region's Raft group. `IncomingVoter` and
/// `DemotingVoter` only appear while a joint-consensus membership change is
/// in flight.
#[derive(Clone, Copy, PartialEq, Eq, Structural, Debug)]
pub enum PeerRole {
    Voter,
    Learner,
    IncomingVoter,
    DemotingVoter,
}

/// One replica of a region, pinned to a store.
#[derive(Clone, Copy, PartialEq, Eq, Structural, Debug)]
pub struct Peer {
    pub id: u64,
    pub store_id: u64,
    pub role: PeerRole,
}

/// A region descriptor: a contiguous key-range shard governed by its own
/// Raft group.
#[derive(Debug)]
pub struct Region {
    pub id: u64,
    pub start_key: Vec<u8>,
    pub end_key: Vec<u8>,
    pub region_epoch: RegionEpoch,
    pub peers: Vec<Peer>,
}

/// The mathematical value of a region descriptor.
#[verifier::ext_equal]
pub ghost struct RegionView {
    pub id: u64,
    pub start_key: Seq<u8>,
    pub end_key: Seq<u8>,
    pub region_epoch: RegionEpoch,
    pub peers: Seq<Peer>,
}

impl View for Region {
    type V = RegionView;

    open spec fn view(&self) -> RegionView {
        RegionView {
            id: self.id,
            start_key: self.start_key@,
            end_key: self.end_key@,
            region_epoch: self.region_epoch,
            peers: self.peers@,
        }
    }
}

impl Clone for Region {
    /// A clone holds the same id, keys, epoch and peers.
    fn clone(&self) -> (r: Self)
        ensures
            r@ == self@,
    {
        let r = Region {
            id: self.id,
            start_key: clone_bytes(&self.start_key),
            end_key: clone_bytes(&self.end_key),
            region_epoch: self.region_epoch,
            peers: clone_peers(&self.peers),
        };
        proof {
            assert(r@ =~= self@);
        }
        r
    }
}

/// Copies a byte string.
pub fn clone_bytes(v: &Vec<u8>) -> (r: Vec<u8>)
    ensures
        r@ == v@,
{
    vstd::slice::slice_to_vec(v.as_slice())
}

/// Copies a peer list.
pub fn clone_peers(v: &Vec<Peer>) -> (r: Vec<Peer>)
    ensures
        r@ == v@,
{
    vstd::slice::slice_to_vec(v.as_slice())
}

/// Makes a voter peer.
pub fn new_peer(store_id: u64, peer_id: u64) -> (r: Peer)
    ensures
        r == (Peer { id: peer_id, store_id, role: PeerRole::Voter }),
{
    Peer { id: peer_id, store_id, role: PeerRole::Voter }
}

/// Makes a learner peer.
pub fn new_learner_peer(store_id: u64, peer_id: u64) -> (r: Peer)
    ensures
        r == (Peer { id: peer_id, store_id, role: PeerRole::Learner }),
{
    Peer { id: peer_id, store_id, role: PeerRole::Learner }
}

/// True iff the peer is a learner.
pub fn is_learner(peer: &Peer) -> (r: bool)
    ensures
        r == (peer.role == PeerRole::Learner),
{
    match peer.role {
        PeerRole::Learner => true,
        _ => false,
    }
}

/// A region is initialized once it has at least one peer.
pub fn is_region_initialized(r: &Region) -> (b: bool)
    ensures
        b == (r@.peers.len() > 0),
{
    !r.peers.is_empty()
}

/// `epoch` lags `check_epoch` in some component.
pub open spec fn spec_is_epoch_stale(epoch: RegionEpoch, check_epoch: RegionEpoch) -> bool {
    epoch.version < check_epoch.version || epoch.conf_ver < check_epoch.conf_ver
}

/// True iff `epoch` is staler than `check_epoch`: behind in `version` or in
/// `conf_ver`.
pub fn is_epoch_stale(epoch: &RegionEpoch, check_epoch: &RegionEpoch) -> (r: bool)
    ensures
        r == spec_is_epoch_stale(*epoch, *check_epoch),
{
    epoch.version < check_epoch.version || epoch.conf_ver < check_epoch.conf_ver
}

/// The key lies in the half-open range `[start_key, end_key)`; an empty
/// `end_key` is the upper end of the key space.
pub open spec fn key_in_region(key: Seq<u8>, region: RegionView) -> bool {
    &&& !lex_lt(key, region.start_key)
    &&& (region.end_key.len() == 0 || lex_lt(key, region.end_key))
}

/// The key lies in the closed range `[start_key, end_key]`.
pub open spec fn key_in_region_inclusive(key: Seq<u8>, region: RegionView) -> bool {
    &&& !lex_lt(key, region.start_key)
    &&& (region.end_key.len() == 0 || !lex_lt(region.end_key, key))
}

/// The key lies in the open range `(start_key, end_key)`.
pub open spec fn key_in_region_exclusive(key: Seq<u8>, region: RegionView) -> bool {
    &&& lex_lt(region.start_key, key)
    &&& (region.end_key.len() == 0 || lex_lt(key, region.end_key))
}

/// Checks that the key lies in `[start_key, end_key)`; otherwise returns
/// `KeyNotInRegion` carrying the key and a copy of the region.
pub fn check_key_in_region(key: &[u8], region: &Region) -> (r: Result<(), Error>)
    ensures
        r is Ok <==> key_in_region(key@, region@),
        r matches Err(e) ==> (e matches Error::KeyNotInRegion(k, reg) && k@ == key@ && reg@
            == region@),
{
    let in_range = !bytes_lt(key, region.start_key.as_slice()) && (region.end_key.is_empty()
        || bytes_lt(key, region.end_key.as_slice()));
    if in_range {
        Ok(())
    } else {
        Err(Error::KeyNotInRegion(vstd::slice::slice_to_vec(key), region.clone()))
    }
}

/// Checks that the key lies in `[start_key, end_key]`; otherwise returns
/// `KeyNotInRegion` carrying the key and a copy of the region.
pub fn check_key_in_region_inclusive(key: &[u8], region: &Region) -> (r: Result<(), Error>)
    ensures
        r is Ok <==> key_in_region_inclusive(key@, region@),
        r matches Err(e) ==> (e matches Error::KeyNotInRegion(k, reg) && k@ == key@ && reg@
            == region@),
{
    let in_range = !bytes_lt(key, region.start_key.as_slice()) && (region.end_key.is_empty()
        || !bytes_lt(region.end_key.as_slice(), key));
    if in_range {
        Ok(())
    } else {
        Err(Error::KeyNotInRegion(vstd::slice::slice_to_vec(key), region.clone()))
    }
}

/// Checks that the key lies in `(start_key, end_key)`; otherwise returns
/// `KeyNotInRegion` carrying the key and a copy of the region.
pub fn check_key_in_region_exclusive(key: &[u8], region: &Region) -> (r: Result<(), Error>)
    ensures
        r is Ok <==> key_in_region_exclusive(key@, region@),
        r matches Err(e) ==> (e matches Error::KeyNotInRegion(k, reg) && k@ == key@ && reg@
            == region@),
{
    let in_range = bytes_lt(region.start_key.as_slice(), key) && (region.end_key.is_empty()
        || bytes_lt(key, region.end_key.as_slice()));
    if in_range {
        Ok(())
    } else {
        Err(Error::KeyNotInRegion(vstd::slice::slice_to_vec(key), region.clone()))
    }
}

/// The region's key range holds at least one key: the start lies strictly
/// below the end, or the end is the upper end of the key space.
pub open spec fn region_range_nonempty(region: RegionView) -> bool {
    region.end_key.len() == 0 || lex_lt(region.start_key, region.end_key)
}

/// Key-range trichotomy: against a region with a non-empty range, every key
/// falls in exactly one of the three zones — below the start, inside
/// `[start_key, end_key)`, or at and above the end.
pub proof fn lemma_key_range_trichotomy(key: Seq<u8>, region: RegionView)
    requires
        region_range_nonempty(region),
    ensures
        lex_lt(key, region.start_key) || key_in_region(key, region) || (region.end_key.len() > 0
            && !lex_lt(key, region.end_key)),
        lex_lt(key, region.start_key) ==> !key_in_region(key, region),
        lex_lt(key, region.start_key) ==> !(region.end_key.len() > 0 && !lex_lt(
            key,
            region.end_key,
        )),
        key_in_region(key, region) ==> !(region.end_key.len() > 0 && !lex_lt(key, region.end_key)),
{
    lemma_lex_trichotomy(key, region.start_key);
    if region.end_key.len() > 0 {
        lemma_lex_trichotomy(key, region.end_key);
        lemma_lex_trichotomy(region.end_key, region.end_key);
        if lex_lt(key, region.start_key) && !lex_lt(key, region.end_key) {
            if key =~= region.end_key {
                lemma_lex_lt_trans(key, region.start_key, region.end_key);
            } else {
                lemma_lex_lt_trans(region.end_key, key, region.start_key);
                lemma_lex_lt_trans(region.end_key, region.start_key, region.end_key);
            }
        }
    }
}

/// Two regions are siblings: distinct ids, and one's end key equals the
/// other's start key, that shared key being non-empty.
pub open spec fn spec_is_sibling_regions(lhs: RegionView, rhs: RegionView) -> bool {
    &&& lhs.id != rhs.id
    &&& ((lhs.start_key =~= rhs.end_key && rhs.end_key.len() > 0) || (lhs.end_key
        =~= rhs.start_key && lhs.end_key.len() > 0))
}

/// True iff the two regions share a border without overlapping.
pub fn is_sibling_regions(lhs: &Region, rhs: &Region) -> (r: bool)
    ensures
        r == spec_is_sibling_regions(lhs@, rhs@),
{
    if lhs.id == rhs.id {
        return false;
    }
    if bytes_eq(lhs.start_key.as_slice(), rhs.end_key.as_slice()) && !rhs.end_key.is_empty() {
        return true;
    }
    if bytes_eq(lhs.end_key.as_slice(), rhs.start_key.as_slice()) && !lhs.end_key.is_empty() {
        return true;
    }
    false
}

/// Some peer of `peers` lives on `store_id`.
pub open spec fn has_peer_on_store(peers: Seq<Peer>, store_id: u64) -> bool {
    exists|i: int| 0 <= i < peers.len() && peers[i].store_id == store_id
}

/// The index of the first peer on `store_id`, if any.
pub open spec fn first_peer_on_store(peers: Seq<Peer>, store_id: u64) -> int
    decreases peers.len(),
{
    if peers.len() == 0 {
        0
    } else if peers[0].store_id == store_id {
        0
    } else {
        1 + first_peer_on_store(peers.drop_first(), store_id)
    }
}

/// Finds the first peer of the region on the given store.
pub fn find_peer<'a>(region: &'a Region, store_id: u64) -> (r: Option<&'a Peer>)
    ensures
        r is Some <==> has_peer_on_store(region@.peers, store_id),
        r matches Some(p) ==> p.store_id == store_id,
        r matches Some(p) ==> {
            &&& 0 <= first_peer_on_store(region@.peers, store_id) < region@.peers.len()
            &&& *p == region@.peers[first_peer_on_store(region@.peers, store_id)]
        },
{
    match find_peer_position(region, store_id) {
        Some(i) => Some(&region.peers[i]),
        None => None,
    }
}

/// Finds the position of the first peer of the region on the given store.
/// Callers that need to change that peer index the region's peer list with
/// the returned position.
pub fn find_peer_position(region: &Region, store_id: u64) -> (r: Option<usize>)
    ensures
        r is Some <==> has_peer_on_store(region@.peers, store_id),
        r matches Some(i) ==> {
            &&& 0 <= i < region@.peers.len()
            &&& i == first_peer_on_store(region@.peers, store_id)
            &&& region@.peers[i as int].store_id == store_id
            &&& forall|j: int| 0 <= j < i ==> region@.peers[j].store_id != store_id
        },
{
    let n: usize = region.peers.len();
    let mut i: usize = 0;
    while i < n
        invariant
            0 <= i <= n,
            n == region.peers@.len(),
            forall|j: int| 0 <= j < i ==> region.peers@[j].store_id != store_id,
        decreases n - i,
    {
        if region.peers[i].store_id == store_id {
            proof {
                lemma_first_peer_on_store_at(region.peers@, store_id, i as int);
            }
            return Some(i);
        }
        i = i + 1;
    }
    None
}

/// When the peers before `i` miss the store and peer `i` hits it, `i` is the
/// first hit.
proof fn lemma_first_peer_on_store_at(peers: Seq<Peer>, store_id: u64, i: int)
    requires
        0 <= i < peers.len(),
        peers[i].store_id == store_id,
        forall|j: int| 0 <= j < i ==> peers[j].store_id != store_id,
    ensures
        first_peer_on_store(peers, store_id) == i,
    decreases i,
{
    if i > 0 {
        assert forall|j: int| 0 <= j < i - 1 implies peers.drop_first()[j].store_id
            != store_id by {
            assert(peers[j + 1].store_id != store_id);
        }
        assert(peers.drop_first()[i - 1].store_id == store_id);
        lemma_first_peer_on_store_at(peers.drop_first(), store_id, i - 1);
    }
}

/// Removes the first peer of the region on the given store and returns it,
/// or returns `None` and leaves the region unchanged.
pub fn remove_peer(region: &mut Region, store_id: u64) -> (r: Option<Peer>)
    ensures
        r is Some <==> has_peer_on_store(old(region)@.peers, store_id),
        r is None ==> final(region)@ == old(region)@,
        r matches Some(p) ==> {
            let i = first_peer_on_store(old(region)@.peers, store_id);
            &&& p == old(region)@.peers[i]
            &&& p.store_id == store_id
            &&& final(region)@.peers == old(region)@.peers.remove(i)
            &&& final(region)@.id == old(region)@.id
            &&& final(region)@.start_key == old(region)@.start_key
            &&& final(region)@.end_key == old(region)@.end_key
            &&& final(region)@.region_epoch == old(region)@.region_epoch
        },
{
    match find_peer_position(region, store_id) {
        Some(i) => {
            let p = region.peers.remove(i);
            Some(p)
        },
        None => None,
    }
}

/// In `rhs` some peer matches `p` by store and role.
pub open spec fn peer_matched(p: Peer, rhs: Seq<Peer>) -> bool {
    exists|j: int| 0 <= j < rhs.len() && rhs[j].store_id == p.store_id && rhs[j].role == p.role
}

/// The two regions' replicas sit on the same stores: equal peer counts, and
/// every peer of one has a peer of the other with the same store and role.
pub open spec fn spec_region_on_same_stores(lhs: RegionView, rhs: RegionView) -> bool {
    &&& lhs.peers.len() == rhs.peers.len()
    &&& forall|i: int| 0 <= i < lhs.peers.len() ==> peer_matched(lhs.peers[i], rhs.peers)
}

/// True iff replicas of the two regions are on the same stores with the same
/// roles. Because a store holds at most one replica of a region, one round of
/// checking is enough.
pub fn region_on_same_stores(lhs: &Region, rhs: &Region) -> (r: bool)
    ensures
        r == spec_region_on_same_stores(lhs@, rhs@),
{
    if lhs.peers.len() != rhs.peers.len() {
        return false;
    }
    let n: usize = lhs.peers.len();
    let mut i: usize = 0;
    while i < n
        invariant
            0 <= i <= n,
            n == lhs.peers@.len(),
            n == rhs.peers@.len(),
            forall|k: int| 0 <= k < i ==> peer_matched(lhs.peers@[k], rhs.peers@),
        decreases n - i,
    {
        let lp = &lhs.peers[i];
        let m: usize = rhs.peers.len();
        let mut j: usize = 0;
        let mut found: bool = false;
        while j < m && !found
            invariant
                0 <= j <= m,
                m == rhs.peers@.len(),
                i < n == lhs.peers@.len(),
                lp == lhs.peers@[i as int],
                found <==> exists|q: int|
                    0 <= q < j && rhs.peers@[q].store_id == lp.store_id && rhs.peers@[q].role
                        == lp.role,
            decreases m - j,
        {
            let rp = &rhs.peers[j];
            if rp.store_id == lp.store_id && rp.role == lp.role {
                found = true;
            }
            j = j + 1;
        }
        if !found {
            assert(!peer_matched(lhs.peers@[i as int], rhs.peers@));
            return false;
        }
        i = i + 1;
    }
    true
}

/// A scan key range: a pair of byte-string bounds.
#[derive(Debug, PartialEq, Eq)]
pub struct KeyRange {
    pub start_key: Vec<u8>,
    pub end_key: Vec<u8>,
}

/// Builds a key range from the two bounds; a reverse scan swaps them.
pub fn build_key_range(start_key: &[u8], end_key: &[u8], reverse_scan: bool) -> (r: KeyRange)
    ensures
        !reverse_scan ==> r.start_key@ == start_key@ && r.end_key@ == end_key@,
        reverse_scan ==> r.start_key@ == end_key@ && r.end_key@ == start_key@,
{
    if reverse_scan {
        KeyRange {
            start_key: vstd::slice::slice_to_vec(end_key),
            end_key: vstd::slice::slice_to_vec(start_key),
        }
    } else {
        KeyRange {
            start_key: vstd::slice::slice_to_vec(start_key),
            end_key: vstd::slice::slice_to_vec(end_key),
        }
    }
}

} // verus!
