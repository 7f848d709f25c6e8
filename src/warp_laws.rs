//! Laws of the warp sync engine that relate several of its operations, stated over the
//! transition functions that the engine's methods are proved to follow.
use vstd::prelude::*;
use crate::message::{block_data_fault, BadPeer, BadPeerReason, BlockData, BlockRequest};
use crate::peers::{any_in_state, lemma_with_peer, selected_peer, Peer, PeerState};
use crate::types::{BlockNumber, PeerId};
use crate::warp::{
    actions_spec, add_peer_spec, block_request_step, block_response_spec,
    lemma_insert_available_keeps_single_flight, lemma_mark_keeps_single_flight, opt_actions, proof_request_step, proof_response_spec, wf_view,
    remove_peer_spec, set_target_block_spec, Phase, VerificationResult, WarpSyncAction,
    WarpSyncView,
};
use crate::types::Header;

verus! {

/// The engine after each peer of `adds` connects, in order.
pub open spec fn add_peers_spec(v: WarpSyncView, adds: Seq<(PeerId, BlockNumber)>) -> WarpSyncView
    decreases adds.len(),
{
    if adds.len() == 0 {
        v
    } else {
        add_peer_spec(add_peers_spec(v, adds.drop_last()), adds.last().0, adds.last().1)
    }
}

/// A connecting peer keeps the engine's invariant, never shrinks the registry, and, while the
/// engine waits for peers, starts the proof phase exactly when the registry reaches the
/// required size.
pub proof fn lemma_add_peer_step(v: WarpSyncView, id: PeerId, best_number: BlockNumber)
    requires
        wf_view(v),
    ensures
        ({
            let w = add_peer_spec(v, id, best_number);
            &&& wf_view(w)
            &&& w.peers.len() >= v.peers.len()
            &&& v.phase is WaitingForPeers ==> (if w.peers.len()
                >= v.phase->WaitingForPeers_required_peers {
                w.phase == Phase::WarpProof {
                    set_id: 0,
                    authorities: v.phase->WaitingForPeers_authorities,
                    last_hash: v.genesis_hash,
                }
            } else {
                w.phase == v.phase
            })
            &&& !(v.phase is WaitingForPeers) ==> w.phase == v.phase
            &&& w.genesis_hash == v.genesis_hash
        }),
{
    lemma_with_peer(v.peers, id, Peer { best_number, state: PeerState::Available });
    lemma_insert_available_keeps_single_flight(v.peers, id, best_number, PeerState::DownloadingProofs);
    lemma_insert_available_keeps_single_flight(v.peers, id, best_number, PeerState::DownloadingTargetBlock);
}

/// Connecting peers to an engine that waits for them starts the proof phase exactly once:
/// the registry never shrinks as peers connect, and after every prefix of the connections
/// the engine is downloading proofs from genesis, with authority set 0 and the authorities
/// the provider gave, exactly when the registry has reached the required number of peers;
/// before that it still waits.
pub proof fn lemma_warp_sync_starts_once(v: WarpSyncView, adds: Seq<(PeerId, BlockNumber)>)
    requires
        wf_view(v),
        v.phase is WaitingForPeers,
    ensures
        forall|k: int|
            0 <= k <= adds.len() ==> {
                let w = #[trigger] add_peers_spec(v, adds.take(k));
                if w.peers.len() >= v.phase->WaitingForPeers_required_peers {
                    w.phase == Phase::WarpProof {
                        set_id: 0,
                        authorities: v.phase->WaitingForPeers_authorities,
                        last_hash: v.genesis_hash,
                    }
                } else {
                    w.phase == v.phase
                }
            },
        forall|k: int|
            0 <= k < adds.len() ==> (#[trigger] add_peers_spec(v, adds.take(k))).peers.len()
                <= add_peers_spec(v, adds.take(k + 1)).peers.len(),
{
    assert forall|k: int| 0 <= k <= adds.len() implies {
        let w = #[trigger] add_peers_spec(v, adds.take(k));
        &&& wf_view(w)
        &&& w.genesis_hash == v.genesis_hash
        &&& if w.peers.len() >= v.phase->WaitingForPeers_required_peers {
            w.phase == Phase::WarpProof {
                set_id: 0,
                authorities: v.phase->WaitingForPeers_authorities,
                last_hash: v.genesis_hash,
            }
        } else {
            w.phase == v.phase
        }
    } by {
        lemma_prefix(v, adds.take(k));
    }
    assert forall|k: int| 0 <= k < adds.len() implies (#[trigger] add_peers_spec(
        v,
        adds.take(k),
    )).peers.len() <= add_peers_spec(v, adds.take(k + 1)).peers.len() by {
        lemma_prefix(v, adds.take(k));
        assert(adds.take(k + 1).drop_last() =~= adds.take(k));
        let w = add_peers_spec(v, adds.take(k));
        lemma_add_peer_step(w, adds[k].0, adds[k].1);
    }
}

proof fn lemma_prefix(v: WarpSyncView, adds: Seq<(PeerId, BlockNumber)>)
    requires
        wf_view(v),
        v.phase is WaitingForPeers,
    ensures
        ({
            let w = add_peers_spec(v, adds);
            &&& wf_view(w)
            &&& w.genesis_hash == v.genesis_hash
            &&& if w.peers.len() >= v.phase->WaitingForPeers_required_peers {
                w.phase == Phase::WarpProof {
                    set_id: 0,
                    authorities: v.phase->WaitingForPeers_authorities,
                    last_hash: v.genesis_hash,
                }
            } else {
                w.phase == v.phase
            }
        }),
    decreases adds.len(),
{
    if adds.len() > 0 {
        lemma_prefix(v, adds.drop_last());
        let u = add_peers_spec(v, adds.drop_last());
        lemma_add_peer_step(u, adds.last().0, adds.last().1);
    }
}

/// Draining the actions never asks for a second proof or block while one of that kind is in
/// flight: with a peer downloading proofs no proof request comes out, with a peer
/// downloading the target block no block request comes out; at most one request of each
/// kind comes out, and the peer it goes to is then marked as downloading, so the engine
/// keeps at most one peer in each downloading state.
pub proof fn lemma_single_flight(v: WarpSyncView)
    requires
        wf_view(v),
    ensures
        ({
            let (w, out) = actions_spec(v);
            &&& wf_view(w)
            &&& any_in_state(v.peers, PeerState::DownloadingProofs) ==> forall|i: int|
                0 <= i < out.len() ==> !((#[trigger] out[i]) is SendWarpProofRequest)
            &&& any_in_state(v.peers, PeerState::DownloadingTargetBlock) ==> forall|i: int|
                0 <= i < out.len() ==> !((#[trigger] out[i]) is SendBlockRequest)
            &&& forall|i: int, j: int|
                0 <= i < out.len() && 0 <= j < out.len() && (#[trigger] out[i]) is SendWarpProofRequest
                    && (#[trigger] out[j]) is SendWarpProofRequest ==> i == j
            &&& forall|i: int, j: int|
                0 <= i < out.len() && 0 <= j < out.len() && (#[trigger] out[i]) is SendBlockRequest
                    && (#[trigger] out[j]) is SendBlockRequest ==> i == j
            &&& (exists|i: int| 0 <= i < out.len() && (#[trigger] out[i]) is SendWarpProofRequest)
                ==> any_in_state(w.peers, PeerState::DownloadingProofs)
            &&& (exists|i: int| 0 <= i < out.len() && (#[trigger] out[i]) is SendBlockRequest)
                ==> any_in_state(w.peers, PeerState::DownloadingTargetBlock)
        }),
{
    let p = proof_request_step(v);
    let b = block_request_step(p.0);
    let (w, out) = actions_spec(v);
    lemma_proof_step(v);
    lemma_block_step(p.0);
    // Neither step fires in the other's phase.
    if p.1 is Some {
        assert(out =~= v.actions.push(p.1->Some_0));
    } else if b.1 is Some {
        assert(out =~= v.actions.push(b.1->Some_0));
    } else {
        assert(out =~= v.actions);
    }
}

/// What one request step keeps and produces.
proof fn lemma_proof_step(v: WarpSyncView)
    requires
        wf_view(v),
    ensures
        ({
            let (w, a) = proof_request_step(v);
            &&& wf_view(w)
            &&& w.phase == v.phase
            &&& w.actions == v.actions
            &&& a is Some ==> a->Some_0 is SendWarpProofRequest && v.phase is WarpProof
                && !any_in_state(v.peers, PeerState::DownloadingProofs) && any_in_state(
                w.peers,
                PeerState::DownloadingProofs,
            )
            &&& a is None ==> w == v
        }),
{
    let (w, a) = proof_request_step(v);
    if a is Some {
        let i = selected_peer(v.peers, None)->Some_0;
        lemma_selected_is_available(v.peers, None);
        lemma_mark_keeps_single_flight(v.peers, i, PeerState::DownloadingProofs, PeerState::DownloadingProofs);
        lemma_mark_keeps_single_flight(v.peers, i, PeerState::DownloadingProofs, PeerState::DownloadingTargetBlock);
        assert(w.peers[i].1.state == PeerState::DownloadingProofs);
    }
}

/// What the other request step keeps and produces.
proof fn lemma_block_step(v: WarpSyncView)
    requires
        wf_view(v),
    ensures
        ({
            let (w, a) = block_request_step(v);
            &&& wf_view(w)
            &&& w.phase == v.phase
            &&& w.actions == v.actions
            &&& a is Some ==> a->Some_0 is SendBlockRequest && v.phase is TargetBlock
                && !any_in_state(v.peers, PeerState::DownloadingTargetBlock) && any_in_state(
                w.peers,
                PeerState::DownloadingTargetBlock,
            )
            &&& a is None ==> w == v
        }),
{
    let (w, a) = block_request_step(v);
    if a is Some {
        let floor = Some(v.phase->TargetBlock_0.number);
        let i = selected_peer(v.peers, floor)->Some_0;
        lemma_selected_is_available(v.peers, floor);
        lemma_mark_keeps_single_flight(v.peers, i, PeerState::DownloadingTargetBlock, PeerState::DownloadingProofs);
        lemma_mark_keeps_single_flight(v.peers, i, PeerState::DownloadingTargetBlock, PeerState::DownloadingTargetBlock);
        assert(w.peers[i].1.state == PeerState::DownloadingTargetBlock);
    }
}

/// The selected peer is in the registry and available.
proof fn lemma_selected_is_available(s: Seq<(PeerId, Peer)>, floor: Option<BlockNumber>)
    ensures
        selected_peer(s, floor) is Some ==> {
            let i = selected_peer(s, floor)->Some_0;
            0 <= i < s.len() && s[i].1.state == PeerState::Available
        },
{
}

/// A warp proof response outside the proof phase drops the peer as unexpected, exactly once,
/// and leaves the phase and the byte counts as they were, whatever the provider would say.
pub proof fn lemma_unexpected_proof_response(
    v: WarpSyncView,
    id: PeerId,
    len: nat,
    outcome: Result<VerificationResult, String>,
)
    requires
        wf_view(v),
        !(v.phase is WarpProof),
    ensures
        ({
            let w = proof_response_spec(v, id, len, outcome);
            &&& w.phase == v.phase
            &&& w.total_proof_bytes == v.total_proof_bytes
            &&& w.total_state_bytes == v.total_state_bytes
            &&& w.actions == v.actions.push(
                WarpSyncAction::DropPeer(
                    BadPeer { peer_id: id, reason: BadPeerReason::UnexpectedResponse },
                ),
            )
        }),
{
}

/// A single well-formed block whose header is not the target header drops the peer for a
/// failed verification, keeps the engine in the target block phase, and leaves no result
/// to take.
pub proof fn lemma_mismatched_target_header(
    v: WarpSyncView,
    id: PeerId,
    request: BlockRequest,
    blocks: Seq<BlockData>,
)
    requires
        wf_view(v),
        v.phase is TargetBlock,
        blocks.len() == 1,
        block_data_fault(blocks, Some(request)) is None,
        blocks[0].header != Some(v.phase->TargetBlock_0),
    ensures
        ({
            let w = block_response_spec(v, id, request, blocks);
            &&& w.phase == v.phase
            &&& w.result is None
            &&& w.actions == v.actions.push(
                WarpSyncAction::DropPeer(
                    BadPeer { peer_id: id, reason: BadPeerReason::VerificationFail },
                ),
            )
        }),
{
}

/// The position of a phase in the order in which sync moves through them.
pub open spec fn phase_rank(p: Phase) -> nat {
    match p {
        Phase::WaitingForPeers { .. } => 0,
        Phase::WarpProof { .. } => 1,
        Phase::PendingTargetBlock => 2,
        Phase::TargetBlock(_) => 3,
        Phase::Complete => 4,
    }
}

/// The phase only ever moves forward: no event and no draining of actions takes the engine
/// back to an earlier phase.
pub proof fn lemma_phase_moves_forward(
    v: WarpSyncView,
    id: PeerId,
    best_number: BlockNumber,
    header: Header,
    len: nat,
    outcome: Result<VerificationResult, String>,
    request: BlockRequest,
    blocks: Seq<BlockData>,
)
    requires
        wf_view(v),
    ensures
        phase_rank(add_peer_spec(v, id, best_number).phase) >= phase_rank(v.phase),
        phase_rank(remove_peer_spec(v, id).phase) == phase_rank(v.phase),
        phase_rank(set_target_block_spec(v, header).phase) >= phase_rank(v.phase),
        phase_rank(proof_response_spec(v, id, len, outcome).phase) >= phase_rank(v.phase),
        phase_rank(block_response_spec(v, id, request, blocks).phase) >= phase_rank(v.phase),
        phase_rank(actions_spec(v).0.phase) == phase_rank(v.phase),
{
    lemma_proof_step(v);
    lemma_block_step(proof_request_step(v).0);
}

} // verus!
