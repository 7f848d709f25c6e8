use warp_sync::message::{
    BadPeer, BadPeerReason, BlockAttributes, BlockData, BlockRequest, Direction, FromBlock,
};
use warp_sync::types::{
    Authority, AuthorityId, AuthorityList, BlockHash, Header, Justification, PeerId, SetId,
};
use warp_sync::warp::{
    ChainInfo, EncodedProof, Phase, SyncState, VerificationResult, WarpProofRequest, WarpSync,
    WarpSyncAction, WarpSyncConfig, WarpSyncParams, WarpSyncPhase, WarpSyncProvider,
    MIN_PEERS_TO_START_WARP_SYNC,
};

/// A provider whose verdict is written in the proof's first byte: 1 proves the target header,
/// 2 is a partial proof ending at `frontier`, anything else fails.
struct ScriptedProvider {
    target: Header,
    frontier: BlockHash,
}

impl WarpSyncProvider for ScriptedProvider {
    fn generate(&self, _start: BlockHash) -> Result<EncodedProof, String> {
        Ok(EncodedProof(vec![1]))
    }

    fn verify(
        &self,
        proof: &EncodedProof,
        set_id: SetId,
        _authorities: AuthorityList,
    ) -> Result<VerificationResult, String> {
        match proof.0.first() {
            Some(1) => Ok(VerificationResult::Complete(5, genesis_authorities(), self.target)),
            Some(2) => Ok(VerificationResult::Partial(set_id + 1, genesis_authorities(), self.frontier)),
            _ => Err("bad proof".to_string()),
        }
    }

    fn current_authorities(&self) -> AuthorityList {
        genesis_authorities()
    }
}

fn hash(n: u128) -> BlockHash {
    BlockHash { high: 0, low: n }
}

fn genesis_authorities() -> AuthorityList {
    vec![Authority { id: AuthorityId { high: 1, low: 2 }, weight: 1 }]
}

fn target_header() -> Header {
    Header {
        parent_hash: hash(11),
        number: 12,
        state_root: hash(500),
        extrinsics_root: hash(501),
        hash: hash(12),
    }
}

fn fresh_chain() -> ChainInfo {
    ChainInfo { genesis_hash: hash(0), finalized_state: None }
}

fn provider() -> ScriptedProvider {
    ScriptedProvider { target: target_header(), frontier: hash(7) }
}

fn proof_engine() -> WarpSync<ScriptedProvider> {
    WarpSync::new(fresh_chain(), WarpSyncConfig::WithProvider(provider()))
}

fn engine_with_peers(bests: &[u64]) -> WarpSync<ScriptedProvider> {
    let mut sync = proof_engine();
    for (i, b) in bests.iter().enumerate() {
        sync.add_peer(PeerId(i as u64 + 1), hash(0), *b);
    }
    sync
}

fn target_request() -> BlockRequest {
    BlockRequest {
        id: 0,
        fields: BlockAttributes { header: true, body: true, justification: true },
        from: FromBlock::Hash(hash(12)),
        direction: Direction::Ascending,
        max: Some(1),
    }
}

fn target_block() -> BlockData {
    BlockData {
        hash: hash(12),
        header: Some(target_header()),
        body: Some(vec![vec![1, 2, 3], vec![4]]),
        justifications: Some(vec![Justification { engine_id: *b"FRNK", data: vec![9, 9] }]),
    }
}

fn drop_peer(peer: u64, reason: BadPeerReason) -> WarpSyncAction {
    WarpSyncAction::DropPeer(BadPeer { peer_id: PeerId(peer), reason })
}

/// An engine in the target block phase with three peers at heights 10, 12 and 11.
fn engine_at_target() -> WarpSync<ScriptedProvider> {
    let mut sync = engine_with_peers(&[10, 12, 11]);
    sync.on_warp_proof_response(&PeerId(2), EncodedProof(vec![1, 0, 0]));
    sync
}

#[test]
fn end_to_end_warp_sync() {
    let mut sync = engine_with_peers(&[10, 12]);
    assert!(matches!(sync.phase(), Phase::WaitingForPeers { .. }));
    sync.add_peer(PeerId(3), hash(0), 11);
    assert_eq!(
        *sync.phase(),
        Phase::WarpProof { set_id: 0, authorities: genesis_authorities(), last_hash: hash(0) }
    );
    assert_eq!(sync.progress().phase, WarpSyncPhase::DownloadingWarpProofs);

    // The median of 10, 11, 12 is 11: the first peer at or above it is peer 2.
    let actions = sync.actions();
    assert_eq!(
        actions,
        vec![WarpSyncAction::SendWarpProofRequest {
            peer_id: PeerId(2),
            request: WarpProofRequest { begin: hash(0) },
        }]
    );

    sync.on_warp_proof_response(&PeerId(2), EncodedProof(vec![1, 0, 0, 0]));
    assert_eq!(*sync.phase(), Phase::TargetBlock(target_header()));
    assert_eq!(sync.progress().phase, WarpSyncPhase::DownloadingTargetBlock);
    assert_eq!(sync.progress().total_bytes, 4);

    let actions = sync.actions();
    assert_eq!(
        actions,
        vec![WarpSyncAction::SendBlockRequest { peer_id: PeerId(2), request: target_request() }]
    );

    sync.on_block_response(PeerId(2), target_request(), vec![target_block()]);
    assert_eq!(*sync.phase(), Phase::Complete);
    assert_eq!(sync.actions(), vec![WarpSyncAction::Finished]);

    let result = sync.take_result().expect("the target block was accepted");
    let block = target_block();
    assert_eq!(result.target_header, target_header());
    assert_eq!(result.target_body, block.body);
    assert_eq!(result.target_justifications, block.justifications);
    assert!(sync.take_result().is_none());
    assert_eq!(sync.progress().phase, WarpSyncPhase::Complete);
    assert_eq!(sync.progress().total_bytes, 4);
}

#[test]
fn existing_finalized_state_falls_back_to_full_sync() {
    let chain = ChainInfo { genesis_hash: hash(0), finalized_state: Some((hash(40), 40)) };
    let mut sync = WarpSync::new(chain, WarpSyncConfig::WithProvider(provider()));
    assert_eq!(*sync.phase(), Phase::Complete);
    assert_eq!(sync.actions(), vec![WarpSyncAction::Finished]);
    assert!(sync.actions().is_empty());
    assert!(sync.take_result().is_none());
}

#[test]
fn waiting_for_peers_until_enough_connect() {
    let mut sync = proof_engine();
    assert_eq!(
        sync.progress().phase,
        WarpSyncPhase::AwaitingPeers { required_peers: MIN_PEERS_TO_START_WARP_SYNC }
    );
    sync.add_peer(PeerId(1), hash(0), 10);
    sync.add_peer(PeerId(2), hash(0), 10);
    // Reconnecting a known peer does not count twice.
    sync.add_peer(PeerId(2), hash(0), 20);
    assert_eq!(sync.num_peers(), 2);
    assert!(matches!(sync.phase(), Phase::WaitingForPeers { required_peers: 3, .. }));
    assert!(sync.actions().is_empty());
    sync.add_peer(PeerId(3), hash(0), 10);
    assert!(matches!(sync.phase(), Phase::WarpProof { set_id: 0, .. }));
    // Further peers leave the proof phase as it is.
    sync.add_peer(PeerId(4), hash(0), 30);
    assert_eq!(
        *sync.phase(),
        Phase::WarpProof { set_id: 0, authorities: genesis_authorities(), last_hash: hash(0) }
    );
}

#[test]
fn one_proof_request_in_flight() {
    let mut sync = engine_with_peers(&[10, 10, 10]);
    let first = sync.actions();
    assert_eq!(first.len(), 1);
    assert!(matches!(first[0], WarpSyncAction::SendWarpProofRequest { peer_id: PeerId(1), .. }));
    assert!(sync.actions().is_empty());
    sync.add_peer(PeerId(4), hash(0), 50);
    assert!(sync.actions().is_empty());
}

#[test]
fn one_block_request_in_flight() {
    let mut sync = engine_at_target();
    let first = sync.actions();
    assert_eq!(first.len(), 1);
    assert!(matches!(first[0], WarpSyncAction::SendBlockRequest { .. }));
    assert!(sync.actions().is_empty());
}

#[test]
fn disconnecting_the_requested_peer_frees_the_slot() {
    let mut sync = engine_with_peers(&[10, 10, 10]);
    let first = sync.actions();
    assert!(matches!(first[0], WarpSyncAction::SendWarpProofRequest { peer_id: PeerId(1), .. }));
    sync.remove_peer(&PeerId(1));
    assert_eq!(sync.num_peers(), 2);
    let next = sync.actions();
    assert_eq!(next.len(), 1);
    assert!(matches!(next[0], WarpSyncAction::SendWarpProofRequest { peer_id: PeerId(2), .. }));
}

#[test]
fn removing_an_unknown_peer_changes_nothing() {
    let mut sync = engine_with_peers(&[10, 10]);
    sync.remove_peer(&PeerId(9));
    assert_eq!(sync.num_peers(), 2);
}

#[test]
fn proof_response_outside_proof_phase_is_unexpected() {
    let mut sync = engine_with_peers(&[10]);
    sync.on_warp_proof_response(&PeerId(1), EncodedProof(vec![1, 2, 3]));
    assert!(matches!(sync.phase(), Phase::WaitingForPeers { .. }));
    assert_eq!(sync.progress().total_bytes, 0);
    assert_eq!(sync.actions(), vec![drop_peer(1, BadPeerReason::UnexpectedResponse)]);
}

#[test]
fn proof_response_in_target_phase_is_unexpected() {
    let mut sync = engine_at_target();
    let before = sync.progress().total_bytes;
    sync.on_warp_proof_response(&PeerId(3), EncodedProof(vec![2, 2]));
    assert_eq!(*sync.phase(), Phase::TargetBlock(target_header()));
    assert_eq!(sync.progress().total_bytes, before);
    let actions = sync.actions();
    assert_eq!(actions[0], drop_peer(3, BadPeerReason::UnexpectedResponse));
}

#[test]
fn bad_proof_drops_the_peer() {
    let mut sync = engine_with_peers(&[10, 10, 10]);
    let _ = sync.actions();
    sync.on_warp_proof_response(&PeerId(1), EncodedProof(vec![0, 0, 0]));
    assert_eq!(
        *sync.phase(),
        Phase::WarpProof { set_id: 0, authorities: genesis_authorities(), last_hash: hash(0) }
    );
    assert_eq!(sync.progress().total_bytes, 0);
    let actions = sync.actions();
    assert_eq!(actions[0], drop_peer(1, BadPeerReason::BadWarpProof));
    // The peer is available again, so a new request goes out in the same drain.
    assert_eq!(
        actions[1],
        WarpSyncAction::SendWarpProofRequest {
            peer_id: PeerId(1),
            request: WarpProofRequest { begin: hash(0) },
        }
    );
}

#[test]
fn partial_proof_moves_the_frontier() {
    let mut sync = engine_with_peers(&[10, 10, 10]);
    let _ = sync.actions();
    sync.on_warp_proof_response(&PeerId(1), EncodedProof(vec![2, 0, 0]));
    assert_eq!(
        *sync.phase(),
        Phase::WarpProof { set_id: 1, authorities: genesis_authorities(), last_hash: hash(7) }
    );
    assert_eq!(sync.progress().total_bytes, 3);
    sync.on_warp_proof_response(&PeerId(1), EncodedProof(vec![2, 0, 0, 0, 0]));
    assert_eq!(sync.progress().total_bytes, 8);
    let actions = sync.actions();
    assert_eq!(
        actions,
        vec![WarpSyncAction::SendWarpProofRequest {
            peer_id: PeerId(1),
            request: WarpProofRequest { begin: hash(7) },
        }]
    );
}

#[test]
fn mismatched_target_header_is_refused() {
    let mut sync = engine_at_target();
    let _ = sync.actions();
    let mut other = target_header();
    other.state_root = hash(999);
    let block = BlockData { header: Some(other), ..target_block() };
    sync.on_block_response(PeerId(2), target_request(), vec![block]);
    assert_eq!(*sync.phase(), Phase::TargetBlock(target_header()));
    assert!(sync.take_result().is_none());
    let actions = sync.actions();
    assert_eq!(actions[0], drop_peer(2, BadPeerReason::VerificationFail));
    // The slot is free again: the block is asked for anew.
    assert!(matches!(actions[1], WarpSyncAction::SendBlockRequest { peer_id: PeerId(2), .. }));
}

#[test]
fn empty_block_response_is_refused() {
    let mut sync = engine_at_target();
    sync.on_block_response(PeerId(2), target_request(), vec![]);
    assert_eq!(sync.actions()[0], drop_peer(2, BadPeerReason::NoBlock));
    assert_eq!(*sync.phase(), Phase::TargetBlock(target_header()));
}

#[test]
fn two_blocks_are_not_requested() {
    let mut sync = engine_at_target();
    sync.on_block_response(PeerId(2), target_request(), vec![target_block(), target_block()]);
    assert_eq!(sync.actions()[0], drop_peer(2, BadPeerReason::NotRequested));
}

#[test]
fn block_without_body_is_refused() {
    let mut sync = engine_at_target();
    let block = BlockData { body: None, ..target_block() };
    let request = BlockRequest { fields: BlockAttributes { header: true, body: false, justification: true }, ..target_request() };
    sync.on_block_response(PeerId(2), request, vec![block]);
    assert_eq!(sync.actions()[0], drop_peer(2, BadPeerReason::VerificationFail));
    assert!(sync.take_result().is_none());
}

#[test]
fn block_without_header_fails_the_sanity_check() {
    let mut sync = engine_at_target();
    let block = BlockData { header: None, ..target_block() };
    sync.on_block_response(PeerId(2), target_request(), vec![block]);
    assert_eq!(sync.actions()[0], drop_peer(2, BadPeerReason::NotRequested));
}

#[test]
fn block_response_before_target_is_unexpected() {
    let mut sync = engine_with_peers(&[10, 10, 10]);
    sync.on_block_response(PeerId(1), target_request(), vec![target_block()]);
    assert_eq!(sync.actions()[0], drop_peer(1, BadPeerReason::UnexpectedResponse));
    assert!(sync.take_result().is_none());
}

#[test]
fn target_block_request_needs_a_peer_at_the_target() {
    // The target is block 12; no peer has reached it.
    let mut sync = engine_with_peers(&[10, 11, 11]);
    sync.on_warp_proof_response(&PeerId(1), EncodedProof(vec![1]));
    assert!(sync.actions().is_empty());
    sync.add_peer(PeerId(4), hash(0), 12);
    assert_eq!(
        sync.actions(),
        vec![WarpSyncAction::SendBlockRequest { peer_id: PeerId(4), request: target_request() }]
    );
}

#[test]
fn external_target_skips_the_proofs() {
    let mut sync: WarpSync<ScriptedProvider> =
        WarpSync::new(fresh_chain(), WarpSyncConfig::WaitForTarget);
    assert_eq!(*sync.phase(), Phase::PendingTargetBlock);
    assert_eq!(sync.progress().phase, WarpSyncPhase::AwaitingTargetBlock);
    sync.add_peer(PeerId(1), hash(0), 20);
    sync.add_peer(PeerId(2), hash(0), 20);
    sync.add_peer(PeerId(3), hash(0), 20);
    assert_eq!(*sync.phase(), Phase::PendingTargetBlock);
    assert!(sync.actions().is_empty());
    sync.set_target_block(target_header());
    assert_eq!(*sync.phase(), Phase::TargetBlock(target_header()));
    assert_eq!(
        sync.actions(),
        vec![WarpSyncAction::SendBlockRequest { peer_id: PeerId(1), request: target_request() }]
    );
}

#[test]
fn set_target_block_in_wrong_phase_is_ignored() {
    let mut sync = engine_with_peers(&[10]);
    sync.set_target_block(target_header());
    assert!(matches!(sync.phase(), Phase::WaitingForPeers { .. }));
}

#[test]
fn status_follows_the_phase() {
    let sync = engine_with_peers(&[10, 10]);
    let status = sync.status();
    assert_eq!(status.state, SyncState::Downloading { target: 0 });
    assert_eq!(status.best_seen_block, None);
    assert_eq!(status.num_peers, 2);
    assert_eq!(status.num_connected_peers, 2);
    assert_eq!(status.queued_blocks, 0);
    assert_eq!(status.state_sync, None);
    assert_eq!(
        status.warp_sync.map(|p| p.phase),
        Some(WarpSyncPhase::AwaitingPeers { required_peers: 3 })
    );

    let mut sync = engine_at_target();
    let status = sync.status();
    assert_eq!(status.state, SyncState::Downloading { target: 12 });
    assert_eq!(status.best_seen_block, Some(12));
    assert_eq!(status.num_peers, 3);

    let _ = sync.actions();
    sync.on_block_response(PeerId(2), target_request(), vec![target_block()]);
    let status = sync.status();
    assert_eq!(status.state, SyncState::Idle);
    assert_eq!(status.best_seen_block, None);
    assert_eq!(status.warp_sync.map(|p| p.phase), Some(WarpSyncPhase::Complete));
}

#[test]
fn phase_descriptions() {
    assert_eq!(
        WarpSyncPhase::AwaitingPeers { required_peers: 3 }.description(),
        "Waiting for 3 peers to be connected"
    );
    assert_eq!(
        WarpSyncPhase::DownloadingBlocks(1024).description(),
        "Downloading block history (#1024)"
    );
    assert_eq!(WarpSyncPhase::DownloadingBlocks(0).description(), "Downloading block history (#0)");
    assert_eq!(
        WarpSyncPhase::AwaitingTargetBlock.description(),
        "Waiting for target block to be received"
    );
    assert_eq!(WarpSyncPhase::DownloadingWarpProofs.description(), "Downloading finality proofs");
    assert_eq!(WarpSyncPhase::DownloadingTargetBlock.description(), "Downloading target block");
    assert_eq!(WarpSyncPhase::DownloadingState.description(), "Downloading state");
    assert_eq!(WarpSyncPhase::ImportingState.description(), "Importing state");
    assert_eq!(WarpSyncPhase::Complete.description(), "Warp sync is complete");
}

#[test]
fn params_split_into_config_and_receiver() {
    let (config, rx) = WarpSyncParams::<ScriptedProvider, u8>::WaitForTarget(7).split();
    assert!(matches!(config, WarpSyncConfig::WaitForTarget));
    assert_eq!(rx, Some(7));
    let (config, rx) = WarpSyncParams::<ScriptedProvider, u8>::WithProvider(provider()).split();
    assert!(matches!(config, WarpSyncConfig::WithProvider(_)));
    assert_eq!(rx, None);
}
