//! The peer registry and the choice of the peer that serves the next request.
//!
//! The registry is a sequence of `(PeerId, Peer)` entries with distinct identities, kept in
//! the order in which peers were first added. A peer is chosen among those that are
//! available and at least as far along the chain as the median peer.
use vstd::prelude::*;
use vstd::relations::{sorted_by, total_ordering};
use crate::types::{BlockNumber, PeerId};

verus! {

broadcast use vstd::seq_lib::group_to_multiset_ensures;

/// What a peer is doing for the sync.
#[derive(Debug, Copy, Clone, PartialEq, Eq, Structural)]
pub enum PeerState {
    /// No request of ours is in flight to this peer.
    Available,
    /// A warp proof request is in flight to this peer.
    DownloadingProofs,
    /// A target block request is in flight to this peer.
    DownloadingTargetBlock,
}

impl PeerState {
    /// Whether the peer can take a new request.
    pub fn is_available(&self) -> (r: bool)
        ensures
            r == (*self == PeerState::Available),
    {
        matches!(self, PeerState::Available)
    }
}

/// What the registry knows of one peer.
#[derive(Debug, Copy, Clone, PartialEq, Eq, Structural)]
pub struct Peer {
    pub best_number: BlockNumber,
    pub state: PeerState,
}

/// The registry's entries name each peer at most once.
pub open spec fn keys_unique(s: Seq<(PeerId, Peer)>) -> bool {
    forall|i: int, j: int| 0 <= i < j < s.len() ==> (#[trigger] s[i]).0 != (#[trigger] s[j]).0
}

/// Whether the registry has an entry for `id`.
pub open spec fn has_peer(s: Seq<(PeerId, Peer)>, id: PeerId) -> bool {
    exists|i: int| 0 <= i < s.len() && (#[trigger] s[i]).0 == id
}

/// The position of the entry for `id`, or -1 when there is none.
pub open spec fn index_of(s: Seq<(PeerId, Peer)>, id: PeerId) -> int {
    if has_peer(s, id) {
        choose|i: int| 0 <= i < s.len() && (#[trigger] s[i]).0 == id
    } else {
        -1
    }
}

/// The registry after recording `p` for `id`: an existing entry is overwritten in place, a
/// new peer goes at the end.
pub open spec fn with_peer(s: Seq<(PeerId, Peer)>, id: PeerId, p: Peer) -> Seq<(PeerId, Peer)> {
    if has_peer(s, id) {
        s.update(index_of(s, id), (id, p))
    } else {
        s.push((id, p))
    }
}

/// The registry without an entry for `id`.
pub open spec fn without_peer(s: Seq<(PeerId, Peer)>, id: PeerId) -> Seq<(PeerId, Peer)> {
    if has_peer(s, id) {
        s.remove(index_of(s, id))
    } else {
        s
    }
}

/// The registry with the state of `id`'s entry, if there is one, set to `st`.
pub open spec fn with_state(s: Seq<(PeerId, Peer)>, id: PeerId, st: PeerState) -> Seq<
    (PeerId, Peer),
> {
    if has_peer(s, id) {
        s.update(index_of(s, id), (id, Peer { best_number: s[index_of(s, id)].1.best_number, state: st }))
    } else {
        s
    }
}

/// Whether some peer of the registry is in state `st`.
pub open spec fn any_in_state(s: Seq<(PeerId, Peer)>, st: PeerState) -> bool {
    exists|i: int| 0 <= i < s.len() && (#[trigger] s[i]).1.state == st
}

/// At most one peer of the registry is in state `st`.
pub open spec fn at_most_one_in_state(s: Seq<(PeerId, Peer)>, st: PeerState) -> bool {
    forall|i: int, j: int|
        0 <= i < s.len() && 0 <= j < s.len() && (#[trigger] s[i]).1.state == st && (#[trigger] s[j]).1.state == st
            ==> i == j
}

/// The best block numbers of the registry's peers, in registry order.
pub open spec fn best_numbers(s: Seq<(PeerId, Peer)>) -> Seq<u64> {
    s.map_values(|e: (PeerId, Peer)| e.1.best_number)
}

/// The ascending order on block numbers.
pub open spec fn ascending() -> spec_fn(u64, u64) -> bool {
    |a: u64, b: u64| a <= b
}

/// The median of `v`: the element at position `len / 2` once `v` is sorted ascending.
pub open spec fn median(v: Seq<u64>) -> u64
    recommends
        v.len() > 0,
{
    v.sort_by(ascending())[(v.len() / 2) as int]
}

/// The least best number a peer must have to be chosen: the median of the registry's best
/// numbers, raised to `floor` when one is given.
pub open spec fn threshold(s: Seq<(PeerId, Peer)>, floor: Option<BlockNumber>) -> u64 {
    let m = median(best_numbers(s));
    match floor {
        Some(f) => if f > m {
            f
        } else {
            m
        },
        None => m,
    }
}

/// Whether a peer can serve a request that needs best number `t`.
pub open spec fn eligible(p: Peer, t: u64) -> bool {
    p.state == PeerState::Available && p.best_number >= t
}

/// Whether entry `i` is the first of the registry that can serve a request needing `t`.
pub open spec fn is_first_eligible(s: Seq<(PeerId, Peer)>, t: u64, i: int) -> bool {
    &&& 0 <= i < s.len()
    &&& eligible(s[i].1, t)
    &&& forall|j: int| 0 <= j < i ==> !eligible(#[trigger] s[j].1, t)
}

/// The position of the peer chosen for the next request: the first entry that is available
/// and at least at the threshold; `None` for an empty registry or when no entry qualifies.
pub open spec fn selected_peer(s: Seq<(PeerId, Peer)>, floor: Option<BlockNumber>) -> Option<int> {
    let t = threshold(s, floor);
    if s.len() > 0 && exists|i: int| is_first_eligible(s, t, i) {
        Some(choose|i: int| is_first_eligible(s, t, i))
    } else {
        None
    }
}

/// There is at most one first eligible entry.
proof fn lemma_first_eligible_unique(s: Seq<(PeerId, Peer)>, t: u64, i: int, k: int)
    requires
        is_first_eligible(s, t, i),
        is_first_eligible(s, t, k),
    ensures
        i == k,
{
    if i < k {
        assert(!eligible(s[i].1, t));
    } else if k < i {
        assert(!eligible(s[k].1, t));
    }
}

proof fn lemma_ascending_total()
    ensures
        total_ordering(ascending()),
{
}

/// The position of `id`'s entry, if the registry has one.
pub fn find_peer(peers: &Vec<(PeerId, Peer)>, id: &PeerId) -> (r: Option<usize>)
    requires
        keys_unique(peers@),
    ensures
        match r {
            Some(i) => has_peer(peers@, *id) && i == index_of(peers@, *id),
            None => !has_peer(peers@, *id),
        },
{
    let mut i: usize = 0;
    while i < peers.len()
        invariant
            i <= peers@.len(),
            keys_unique(peers@),
            forall|j: int| 0 <= j < i ==> (#[trigger] peers@[j]).0 != *id,
        decreases peers@.len() - i,
    {
        if peers[i].0 == *id {
            assert(peers@[i as int].0 == *id);
            proof {
                let k = index_of(peers@, *id);
                assert(peers@[k].0 == *id);
                if k < i {
                    assert(peers@[k].0 != peers@[i as int].0);
                } else if i < k {
                    assert(peers@[i as int].0 != peers@[k].0);
                }
            }
            return Some(i);
        }
        i = i + 1;
    }
    None
}

/// Records `p` as what is known of `id`.
pub fn insert_peer(peers: &mut Vec<(PeerId, Peer)>, id: PeerId, p: Peer)
    requires
        keys_unique(old(peers)@),
    ensures
        final(peers)@ == with_peer(old(peers)@, id, p),
        keys_unique(final(peers)@),
{
    match find_peer(peers, &id) {
        Some(i) => {
            peers.set(i, (id, p));
        },
        None => {
            peers.push((id, p));
        },
    }
}

/// Forgets `id`.
pub fn remove_peer_entry(peers: &mut Vec<(PeerId, Peer)>, id: &PeerId)
    requires
        keys_unique(old(peers)@),
    ensures
        final(peers)@ == without_peer(old(peers)@, *id),
        keys_unique(final(peers)@),
{
    match find_peer(peers, id) {
        Some(i) => {
            let ghost s = peers@;
            peers.remove(i);
            assert forall|a: int, b: int| 0 <= a < b < peers@.len() implies (#[trigger] peers@[a]).0
                != (#[trigger] peers@[b]).0 by {
                let a0 = if a < i { a } else { a + 1 };
                let b0 = if b < i { b } else { b + 1 };
                assert(s[a0] == peers@[a] && s[b0] == peers@[b]);
            }
        },
        None => {},
    }
}

/// Sets the state of `id`'s entry, if there is one.
pub fn set_peer_state(peers: &mut Vec<(PeerId, Peer)>, id: &PeerId, st: PeerState)
    requires
        keys_unique(old(peers)@),
    ensures
        final(peers)@ == with_state(old(peers)@, *id, st),
        keys_unique(final(peers)@),
{
    match find_peer(peers, id) {
        Some(i) => {
            let best_number = peers[i].1.best_number;
            peers.set(i, (*id, Peer { best_number, state: st }));
        },
        None => {},
    }
}

/// Whether some peer is in state `st`.
pub fn any_peer_in_state(peers: &Vec<(PeerId, Peer)>, st: PeerState) -> (r: bool)
    ensures
        r == any_in_state(peers@, st),
{
    let mut i: usize = 0;
    while i < peers.len()
        invariant
            i <= peers@.len(),
            forall|j: int| 0 <= j < i ==> (#[trigger] peers@[j]).1.state != st,
        decreases peers@.len() - i,
    {
        if peers[i].1.state == st {
            assert(peers@[i as int].1.state == st);
            return true;
        }
        i = i + 1;
    }
    false
}

/// The peers' best numbers, sorted ascending.
pub fn sorted_best_numbers(peers: &Vec<(PeerId, Peer)>) -> (r: Vec<u64>)
    ensures
        r@ == best_numbers(peers@).sort_by(ascending()),
{
    let mut sorted: Vec<u64> = Vec::new();
    let mut i: usize = 0;
    while i < peers.len()
        invariant
            i <= peers@.len(),
            sorted_by(sorted@, ascending()),
            sorted@.to_multiset() == best_numbers(peers@.subrange(0, i as int)).to_multiset(),
        decreases peers@.len() - i,
    {
        let x = peers[i].1.best_number;
        let mut p: usize = 0;
        while p < sorted.len() && sorted[p] <= x
            invariant
                p <= sorted@.len(),
                forall|j: int| 0 <= j < p ==> sorted@[j] <= x,
            decreases sorted@.len() - p,
        {
            p = p + 1;
        }
        let ghost before = sorted@;
        sorted.insert(p, x);
        assert(sorted@ == before.insert(p as int, x));
        assert forall|a: int, b: int| 0 <= a < b < sorted@.len() implies #[trigger] (ascending())(
            sorted@[a],
            sorted@[b],
        ) by {
            if b < p {
            } else if b == p {
            } else if a < p {
                assert((ascending())(before[a], before[b - 1]));
            } else if a == p {
                assert((ascending())(before[p as int], before[b - 1]));
            } else {
                assert((ascending())(before[a - 1], before[b - 1]));
            }
        }
        assert(best_numbers(peers@.subrange(0, i + 1)) == best_numbers(
            peers@.subrange(0, i as int),
        ).push(x));
        i = i + 1;
    }
    assert(peers@.subrange(0, peers@.len() as int) == peers@);
    proof {
        lemma_ascending_total();
        let all = best_numbers(peers@);
        all.lemma_sort_by_ensures(ascending());
        vstd::seq_lib::lemma_sorted_unique(sorted@, all.sort_by(ascending()), ascending());
    }
    sorted
}

/// Chooses the peer for the next request: the first registry entry that is available and
/// whose best number is at least the median of all best numbers and at least `min_best_number`
/// when given. Returns its position.
pub fn select_synced_available_peer(
    peers: &Vec<(PeerId, Peer)>,
    min_best_number: Option<BlockNumber>,
) -> (r: Option<usize>)
    ensures
        match r {
            Some(i) => selected_peer(peers@, min_best_number) == Some(i as int),
            None => selected_peer(peers@, min_best_number) is None,
        },
{
    if peers.len() == 0 {
        return None;
    }
    let targets = sorted_best_numbers(peers);
    proof {
        lemma_ascending_total();
        best_numbers(peers@).lemma_sort_by_ensures(ascending());
        assert(best_numbers(peers@).len() == peers@.len());
        assert(targets@.len() == targets@.to_multiset().len());
    }
    let median = targets[targets.len() / 2];
    let bound = match min_best_number {
        Some(f) => if f > median {
            f
        } else {
            median
        },
        None => median,
    };
    assert(bound == threshold(peers@, min_best_number));
    let mut i: usize = 0;
    while i < peers.len()
        invariant
            i <= peers@.len(),
            peers@.len() > 0,
            bound == threshold(peers@, min_best_number),
            forall|j: int| 0 <= j < i ==> !eligible(#[trigger] peers@[j].1, bound),
        decreases peers@.len() - i,
    {
        if peers[i].1.state.is_available() && peers[i].1.best_number >= bound {
            assert(is_first_eligible(peers@, bound, i as int));
            proof {
                assert(exists|k: int| is_first_eligible(peers@, bound, k));
                let k = choose|k: int| is_first_eligible(peers@, bound, k);
                lemma_first_eligible_unique(peers@, bound, i as int, k);
            }
            return Some(i);
        }
        i = i + 1;
    }
    None
}

/// Recording a peer keeps identities distinct, and adds an entry only for a new peer.
pub proof fn lemma_with_peer(s: Seq<(PeerId, Peer)>, id: PeerId, p: Peer)
    requires
        keys_unique(s),
    ensures
        keys_unique(with_peer(s, id, p)),
        with_peer(s, id, p).len() == if has_peer(s, id) {
            s.len()
        } else {
            s.len() + 1
        },
{
    let t = with_peer(s, id, p);
    if has_peer(s, id) {
        let k = index_of(s, id);
        assert forall|a: int, b: int| 0 <= a < b < t.len() implies (#[trigger] t[a]).0 != (
        #[trigger] t[b]).0 by {
            if a == k {
                assert(s[k].0 == id && s[b].0 == t[b].0);
            } else if b == k {
                assert(s[k].0 == id && s[a].0 == t[a].0);
            } else {
                assert(s[a] == t[a] && s[b] == t[b]);
            }
        }
    } else {
        assert forall|a: int, b: int| 0 <= a < b < t.len() implies (#[trigger] t[a]).0 != (
        #[trigger] t[b]).0 by {
            if b == s.len() {
                assert(s[a] == t[a]);
            } else {
                assert(s[a] == t[a] && s[b] == t[b]);
            }
        }
    }
}

} // verus!
