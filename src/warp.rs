//! Warp sync state machine. Bootstraps the chain by downloading and verifying a chain of
//! finality proofs, then the single target block they lead to.
//!
//! The engine performs no I/O. A driver feeds it peer events and responses, and drains the
//! actions it wants performed with [`WarpSync::actions`].
use vstd::prelude::*;
use crate::message::{
    block_data_fault, validate_blocks, BadPeer, BadPeerReason, BlockAttributes, BlockData,
    BlockRequest, Direction, FromBlock,
};
use crate::peers::{
    any_in_state, any_peer_in_state, at_most_one_in_state, has_peer, index_of, insert_peer,
    keys_unique, remove_peer_entry, select_synced_available_peer, selected_peer, set_peer_state,
    with_peer, with_state, without_peer, Peer, PeerState,
};
use crate::text::{decimal, push_decimal};
use vstd::string::StringExecFns;
use crate::types::{
    Authority, AuthorityList, BlockHash, BlockNumber, Extrinsic, Header, Justifications, PeerId, SetId,
};

verus! {

/// Number of peers that need to be connected before warp sync is started.
pub const MIN_PEERS_TO_START_WARP_SYNC: usize = 3;

/// Scale-encoded warp sync proof response.
#[derive(Debug, Clone, PartialEq, Eq)]
pub struct EncodedProof(pub Vec<u8>);

/// Warp sync request.
#[derive(Debug, Copy, Clone, PartialEq, Eq, Structural)]
pub struct WarpProofRequest {
    /// Start collecting proofs from this block.
    pub begin: BlockHash,
}

/// Proof verification result.
pub enum VerificationResult {
    /// Proof is valid, but the target was not reached.
    Partial(SetId, AuthorityList, BlockHash),
    /// Target finality is proved.
    Complete(SetId, AuthorityList, Header),
}

/// Warp sync backend. Handles retrieving and verifying warp sync proofs.
pub trait WarpSyncProvider {
    /// Whether `r` is a verdict that `verify` may give on the proof bytes `proof`, checked
    /// against authority set `set_id` with `authorities`. An implementation that states
    /// nothing of its verdicts may give any.
    open spec fn verifies(
        &self,
        proof: Seq<u8>,
        set_id: SetId,
        authorities: Seq<Authority>,
        r: Result<VerificationResult, String>,
    ) -> bool {
        true
    }

    /// Whether `authorities` is a list that `current_authorities` may give. An implementation
    /// that states nothing of its authorities may give any.
    open spec fn gives_authorities(&self, authorities: Seq<Authority>) -> bool {
        true
    }

    /// Generate proof starting at given block hash. The proof is accumulated until maximum
    /// proof size is reached.
    fn generate(&self, start: BlockHash) -> Result<EncodedProof, String>;

    /// Verify warp proof against current set of authorities.
    fn verify(&self, proof: &EncodedProof, set_id: SetId, authorities: AuthorityList) -> (r: Result<
        VerificationResult,
        String,
    >)
        ensures
            self.verifies(proof.0@, set_id, authorities@, r),
    ;

    /// Get current list of authorities. This is supposed to be genesis authorities when
    /// starting sync.
    fn current_authorities(&self) -> (r: AuthorityList)
        ensures
            self.gives_authorities(r@),
    ;
}

/// Reported warp sync phase.
#[derive(Debug, Copy, Clone, PartialEq, Eq, Structural)]
pub enum WarpSyncPhase {
    /// Waiting for peers to connect.
    AwaitingPeers { required_peers: usize },
    /// Waiting for target block to be received.
    AwaitingTargetBlock,
    /// Downloading and verifying grandpa warp proofs.
    DownloadingWarpProofs,
    /// Downloading target block.
    DownloadingTargetBlock,
    /// Downloading state data.
    DownloadingState,
    /// Importing state.
    ImportingState,
    /// Downloading block history.
    DownloadingBlocks(BlockNumber),
    /// Warp sync is complete.
    Complete,
}

/// The human-readable description of each reported phase.
pub open spec fn phase_text(p: WarpSyncPhase) -> Seq<char> {
    match p {
        WarpSyncPhase::AwaitingPeers { required_peers } => "Waiting for "@ + decimal(
            required_peers as nat,
        ) + " peers to be connected"@,
        WarpSyncPhase::AwaitingTargetBlock => "Waiting for target block to be received"@,
        WarpSyncPhase::DownloadingWarpProofs => "Downloading finality proofs"@,
        WarpSyncPhase::DownloadingTargetBlock => "Downloading target block"@,
        WarpSyncPhase::DownloadingState => "Downloading state"@,
        WarpSyncPhase::ImportingState => "Importing state"@,
        WarpSyncPhase::DownloadingBlocks(n) => "Downloading block history (#"@ + decimal(n as nat)
            + ")"@,
        WarpSyncPhase::Complete => "Warp sync is complete"@,
    }
}

impl WarpSyncPhase {
    /// Human-readable description of the phase.
    pub fn description(&self) -> (r: String)
        ensures
            r@ == phase_text(*self),
    {
        match self {
            WarpSyncPhase::AwaitingPeers { required_peers } => {
                let mut s = String::from_str("Waiting for ");
                push_decimal(&mut s, *required_peers as u64);
                s.append(" peers to be connected");
                s
            },
            WarpSyncPhase::AwaitingTargetBlock => String::from_str(
                "Waiting for target block to be received",
            ),
            WarpSyncPhase::DownloadingWarpProofs => String::from_str("Downloading finality proofs"),
            WarpSyncPhase::DownloadingTargetBlock => String::from_str("Downloading target block"),
            WarpSyncPhase::DownloadingState => String::from_str("Downloading state"),
            WarpSyncPhase::ImportingState => String::from_str("Importing state"),
            WarpSyncPhase::DownloadingBlocks(n) => {
                let mut s = String::from_str("Downloading block history (#");
                push_decimal(&mut s, *n);
                s.append(")");
                s
            },
            WarpSyncPhase::Complete => String::from_str("Warp sync is complete"),
        }
    }
}

/// Reported warp sync progress.
#[derive(Debug, Copy, Clone, PartialEq, Eq, Structural)]
pub struct WarpSyncProgress {
    /// The phase that sync is in.
    pub phase: WarpSyncPhase,
    /// Total bytes downloaded so far.
    pub total_bytes: u64,
}

/// Warp sync configuration as accepted by [`WarpSync`].
pub enum WarpSyncConfig<P> {
    /// Standard warp sync for the chain.
    WithProvider(P),
    /// Skip downloading proofs and wait for a header of the state that should be downloaded.
    ///
    /// It is expected that the header provider ensures that the header is trusted.
    WaitForTarget,
}

/// The different types of warp syncing, as the node's builder receives them: `R` is the
/// receiving end through which the target header arrives when proofs are skipped.
pub enum WarpSyncParams<P, R> {
    /// Standard warp sync for the chain.
    WithProvider(P),
    /// Skip downloading proofs and wait for a header of the state that should be downloaded.
    WaitForTarget(R),
}

impl<P, R> WarpSyncParams<P, R> {
    /// Split `WarpSyncParams` into `WarpSyncConfig` and warp sync target block header receiver.
    pub fn split(self) -> (r: (WarpSyncConfig<P>, Option<R>))
        ensures
            match self {
                WarpSyncParams::WithProvider(p) => r.0 == WarpSyncConfig::<P>::WithProvider(p)
                    && r.1 is None,
                WarpSyncParams::WaitForTarget(rx) => r.0 is WaitForTarget && r.1 == Some(rx),
            },
    {
        match self {
            WarpSyncParams::WithProvider(provider) => (WarpSyncConfig::WithProvider(provider), None),
            WarpSyncParams::WaitForTarget(rx) => (WarpSyncConfig::WaitForTarget, Some(rx)),
        }
    }
}

/// Warp sync phase used by the warp sync state machine.
#[derive(Debug, Clone, PartialEq, Eq)]
pub enum Phase {
    /// Waiting for enough peers to connect; holds the authorities that the proof provider
    /// gave when the engine was built.
    WaitingForPeers { required_peers: usize, authorities: AuthorityList },
    /// Downloading warp proofs.
    WarpProof { set_id: SetId, authorities: AuthorityList, last_hash: BlockHash },
    /// Waiting for target block to be set externally if we skip warp proofs downloading,
    /// and start straight from the target block (used by parachains warp sync).
    PendingTargetBlock,
    /// Downloading target block.
    TargetBlock(Header),
    /// Warp sync is complete.
    Complete,
}

/// Action that should be performed on [`WarpSync`]'s behalf.
#[derive(Debug, Copy, Clone, PartialEq, Eq, Structural)]
pub enum WarpSyncAction {
    /// Send warp proof request to peer.
    SendWarpProofRequest { peer_id: PeerId, request: WarpProofRequest },
    /// Send block request to peer. Always implies dropping a stale block request to the same
    /// peer.
    SendBlockRequest { peer_id: PeerId, request: BlockRequest },
    /// Disconnect and report peer.
    DropPeer(BadPeer),
    /// Warp sync has finished.
    Finished,
}

/// The outcome of a successful warp sync: the target block.
#[derive(Debug, Clone, PartialEq, Eq)]
pub struct WarpSyncResult {
    pub target_header: Header,
    pub target_body: Option<Vec<Extrinsic>>,
    pub target_justifications: Option<Justifications>,
}

/// What the engine reads of the local chain when it is built.
#[derive(Debug, Copy, Clone)]
pub struct ChainInfo {
    /// Hash of the genesis block.
    pub genesis_hash: BlockHash,
    /// The last finalized block whose state is present, if any.
    pub finalized_state: Option<(BlockHash, BlockNumber)>,
}

/// The state of the engine as its contracts speak of it.
pub struct WarpSyncView {
    pub phase: Phase,
    /// Whether the engine holds a proof provider.
    pub has_provider: bool,
    pub genesis_hash: BlockHash,
    pub total_proof_bytes: u64,
    pub total_state_bytes: u64,
    /// The peer registry, in the order in which peers were first added.
    pub peers: Seq<(PeerId, Peer)>,
    /// Actions queued and not yet drained.
    pub actions: Seq<WarpSyncAction>,
    pub result: Option<WarpSyncResult>,
}

/// Whether an action is one that the event handlers queue (requests are produced only when
/// actions are drained).
pub open spec fn is_queued_kind(a: WarpSyncAction) -> bool {
    a is DropPeer || a is Finished
}

/// The engine's invariant.
pub open spec fn wf_view(v: WarpSyncView) -> bool {
    &&& keys_unique(v.peers)
    &&& at_most_one_in_state(v.peers, PeerState::DownloadingProofs)
    &&& at_most_one_in_state(v.peers, PeerState::DownloadingTargetBlock)
    &&& v.total_state_bytes == 0
    &&& (v.phase is WaitingForPeers || v.phase is WarpProof) ==> v.has_provider
    &&& v.phase is WaitingForPeers ==> v.peers.len() < v.phase->WaitingForPeers_required_peers
    &&& v.phase is WaitingForPeers ==> v.phase->WaitingForPeers_required_peers
        == MIN_PEERS_TO_START_WARP_SYNC
    &&& forall|i: int| 0 <= i < v.actions.len() ==> is_queued_kind(#[trigger] v.actions[i])
    &&& v.result is Some ==> v.phase is Complete
}

/// Phase advance: with enough peers, waiting for peers turns into downloading proofs from
/// genesis with authority set 0 and the cached authorities.
pub open spec fn try_start_spec(v: WarpSyncView) -> WarpSyncView {
    match v.phase {
        Phase::WaitingForPeers { required_peers, authorities } => if v.peers.len()
            >= required_peers {
            WarpSyncView {
                phase: Phase::WarpProof { set_id: 0, authorities, last_hash: v.genesis_hash },
                ..v
            }
        } else {
            v
        },
        _ => v,
    }
}

/// The engine after a peer connects.
pub open spec fn add_peer_spec(v: WarpSyncView, id: PeerId, best_number: BlockNumber) -> WarpSyncView {
    try_start_spec(
        WarpSyncView {
            peers: with_peer(
                v.peers,
                id,
                Peer { best_number, state: PeerState::Available },
            ),
            ..v
        },
    )
}

/// The engine after a peer disconnects.
pub open spec fn remove_peer_spec(v: WarpSyncView, id: PeerId) -> WarpSyncView {
    WarpSyncView { peers: without_peer(v.peers, id), ..v }
}

/// The engine after the target header is supplied from outside.
pub open spec fn set_target_block_spec(v: WarpSyncView, header: Header) -> WarpSyncView {
    if v.phase is PendingTargetBlock {
        WarpSyncView { phase: Phase::TargetBlock(header), ..v }
    } else {
        v
    }
}

/// `a + b`, held at `u64::MAX`.
pub open spec fn saturating_sum(a: u64, b: nat) -> u64 {
    if a + b > u64::MAX {
        u64::MAX
    } else {
        (a + b) as u64
    }
}

/// The engine after a proof response of `len` bytes from `id`, given what the provider
/// said of the proof. Outside the proof phase the provider is not asked, and its outcome
/// is ignored.
pub open spec fn proof_response_spec(
    v: WarpSyncView,
    id: PeerId,
    len: nat,
    outcome: Result<VerificationResult, String>,
) -> WarpSyncView {
    let v1 = WarpSyncView { peers: with_state(v.peers, id, PeerState::Available), ..v };
    if v1.phase is WarpProof {
        match outcome {
            Err(_) => WarpSyncView {
                actions: v1.actions.push(
                    WarpSyncAction::DropPeer(
                        BadPeer { peer_id: id, reason: BadPeerReason::BadWarpProof },
                    ),
                ),
                ..v1
            },
            Ok(VerificationResult::Partial(set_id, authorities, last_hash)) => WarpSyncView {
                phase: Phase::WarpProof { set_id, authorities, last_hash },
                total_proof_bytes: saturating_sum(v1.total_proof_bytes, len),
                ..v1
            },
            Ok(VerificationResult::Complete(_, _, header)) => WarpSyncView {
                phase: Phase::TargetBlock(header),
                total_proof_bytes: saturating_sum(v1.total_proof_bytes, len),
                ..v1
            },
        }
    } else {
        WarpSyncView {
            actions: v1.actions.push(
                WarpSyncAction::DropPeer(
                    BadPeer { peer_id: id, reason: BadPeerReason::UnexpectedResponse },
                ),
            ),
            ..v1
        }
    }
}

/// Why the target block response `blocks`, answering `request`, is refused in `phase`; `None`
/// when it is accepted. The checks run in order and the first that fails decides.
pub open spec fn target_block_fault(phase: Phase, request: BlockRequest, blocks: Seq<BlockData>) -> Option<
    BadPeerReason,
> {
    match phase {
        Phase::TargetBlock(target) => if blocks.len() == 0 {
            Some(BadPeerReason::NoBlock)
        } else if blocks.len() > 1 {
            Some(BadPeerReason::NotRequested)
        } else if block_data_fault(blocks, Some(request)) is Some {
            block_data_fault(blocks, Some(request))
        } else if blocks[0].header != Some(target) {
            Some(BadPeerReason::VerificationFail)
        } else if blocks[0].body is None {
            Some(BadPeerReason::VerificationFail)
        } else {
            None
        },
        _ => Some(BadPeerReason::UnexpectedResponse),
    }
}

/// The engine after handling a target block response, before any peer is dropped: on
/// success the result holds the target header and the block's body and justifications,
/// the phase is complete and `Finished` is queued.
pub open spec fn block_response_inner_spec(
    v: WarpSyncView,
    id: PeerId,
    request: BlockRequest,
    blocks: Seq<BlockData>,
) -> WarpSyncView {
    let v1 = WarpSyncView { peers: with_state(v.peers, id, PeerState::Available), ..v };
    if target_block_fault(v1.phase, request, blocks) is Some {
        v1
    } else {
        WarpSyncView {
            phase: Phase::Complete,
            result: Some(
                WarpSyncResult {
                    target_header: v1.phase->TargetBlock_0,
                    target_body: blocks[0].body,
                    target_justifications: blocks[0].justifications,
                },
            ),
            actions: v1.actions.push(WarpSyncAction::Finished),
            ..v1
        }
    }
}

/// The engine after a target block response: a refused response drops the peer.
pub open spec fn block_response_spec(
    v: WarpSyncView,
    id: PeerId,
    request: BlockRequest,
    blocks: Seq<BlockData>,
) -> WarpSyncView {
    let v1 = block_response_inner_spec(v, id, request, blocks);
    match target_block_fault(v.phase, request, blocks) {
        Some(reason) => WarpSyncView {
            actions: v1.actions.push(WarpSyncAction::DropPeer(BadPeer { peer_id: id, reason })),
            ..v1
        },
        None => v1,
    }
}

/// The request that fetches the target block: exactly that block, with header, body and
/// justifications.
pub open spec fn target_block_request_for(header: Header) -> BlockRequest {
    BlockRequest {
        id: 0,
        fields: BlockAttributes { header: true, body: true, justification: true },
        from: FromBlock::Hash(header.hash),
        direction: Direction::Ascending,
        max: Some(1),
    }
}

/// The registry with entry `i` put into state `st`.
pub open spec fn mark_peer(s: Seq<(PeerId, Peer)>, i: int, st: PeerState) -> Seq<(PeerId, Peer)> {
    s.update(i, (s[i].0, Peer { best_number: s[i].1.best_number, state: st }))
}

/// The warp proof request produced when actions are drained, with the engine after it: only
/// in the proof phase, only while no proof request is in flight, to the selected peer, which
/// is then marked as downloading proofs.
pub open spec fn proof_request_step(v: WarpSyncView) -> (WarpSyncView, Option<WarpSyncAction>) {
    match v.phase {
        Phase::WarpProof { last_hash, .. } => if any_in_state(v.peers, PeerState::DownloadingProofs) {
            (v, None)
        } else {
            match selected_peer(v.peers, None) {
                Some(i) => (
                    WarpSyncView { peers: mark_peer(v.peers, i, PeerState::DownloadingProofs), ..v },
                    Some(
                        WarpSyncAction::SendWarpProofRequest {
                            peer_id: v.peers[i].0,
                            request: WarpProofRequest { begin: last_hash },
                        },
                    ),
                ),
                None => (v, None),
            }
        },
        _ => (v, None),
    }
}

/// The target block request produced when actions are drained, with the engine after it:
/// only in the target block phase, only while no block request is in flight, to the peer
/// selected with the target's number as floor, which is then marked as downloading it.
pub open spec fn block_request_step(v: WarpSyncView) -> (WarpSyncView, Option<WarpSyncAction>) {
    match v.phase {
        Phase::TargetBlock(header) => if any_in_state(v.peers, PeerState::DownloadingTargetBlock) {
            (v, None)
        } else {
            match selected_peer(v.peers, Some(header.number)) {
                Some(i) => (
                    WarpSyncView {
                        peers: mark_peer(v.peers, i, PeerState::DownloadingTargetBlock),
                        ..v
                    },
                    Some(
                        WarpSyncAction::SendBlockRequest {
                            peer_id: v.peers[i].0,
                            request: target_block_request_for(header),
                        },
                    ),
                ),
                None => (v, None),
            }
        },
        _ => (v, None),
    }
}

/// The actions of an optional one.
pub open spec fn opt_actions(a: Option<WarpSyncAction>) -> Seq<WarpSyncAction> {
    match a {
        Some(x) => seq![x],
        None => Seq::empty(),
    }
}

/// Draining the actions: the queued ones, then a new proof request, then a new block
/// request, each where one is due; the engine keeps an empty queue.
pub open spec fn actions_spec(v: WarpSyncView) -> (WarpSyncView, Seq<WarpSyncAction>) {
    let p = proof_request_step(v);
    let b = block_request_step(p.0);
    (
        WarpSyncView { actions: Seq::empty(), ..b.0 },
        v.actions + opt_actions(p.1) + opt_actions(b.1),
    )
}

/// The progress reported in each phase.
pub open spec fn progress_spec(v: WarpSyncView) -> WarpSyncProgress {
    match v.phase {
        Phase::WaitingForPeers { required_peers, .. } => WarpSyncProgress {
            phase: WarpSyncPhase::AwaitingPeers { required_peers },
            total_bytes: v.total_proof_bytes,
        },
        Phase::WarpProof { .. } => WarpSyncProgress {
            phase: WarpSyncPhase::DownloadingWarpProofs,
            total_bytes: v.total_proof_bytes,
        },
        Phase::TargetBlock(_) => WarpSyncProgress {
            phase: WarpSyncPhase::DownloadingTargetBlock,
            total_bytes: v.total_proof_bytes,
        },
        Phase::PendingTargetBlock => WarpSyncProgress {
            phase: WarpSyncPhase::AwaitingTargetBlock,
            total_bytes: v.total_proof_bytes,
        },
        Phase::Complete => WarpSyncProgress {
            phase: WarpSyncPhase::Complete,
            total_bytes: (v.total_proof_bytes + v.total_state_bytes) as u64,
        },
    }
}

/// Reported state sync progress.
#[derive(Debug, Copy, Clone, PartialEq, Eq, Structural)]
pub struct StateDownloadProgress {
    /// Estimated download percentage.
    pub percentage: u32,
    /// Total state size in bytes downloaded so far.
    pub size: u64,
}

/// Reported sync state.
#[derive(Debug, Copy, Clone, PartialEq, Eq, Structural)]
pub enum SyncState {
    /// Initial sync is complete, keep-up sync is active.
    Idle,
    /// Actively catching up with the chain.
    Downloading { target: BlockNumber },
    /// All blocks are downloaded and are being imported.
    Importing { target: BlockNumber },
}

/// Syncing status and statistics.
#[derive(Debug, Copy, Clone, PartialEq, Eq, Structural)]
pub struct SyncStatus {
    /// Current global sync state.
    pub state: SyncState,
    /// Target sync block number.
    pub best_seen_block: Option<BlockNumber>,
    /// Number of peers participating in syncing.
    pub num_peers: u32,
    /// Number of peers known to the sync.
    pub num_connected_peers: u32,
    /// Number of blocks queued for import.
    pub queued_blocks: u32,
    /// State sync status in progress, if any.
    pub state_sync: Option<StateDownloadProgress>,
    /// Warp sync progress, if any.
    pub warp_sync: Option<WarpSyncProgress>,
}

/// `n` as a `u32`, held at `u32::MAX`.
pub open spec fn saturated_u32(n: nat) -> u32 {
    if n > u32::MAX {
        u32::MAX
    } else {
        n as u32
    }
}

/// The sync status reported in each phase: idle once complete, else downloading towards the
/// target's number, which is known only in the target block phase (zero before).
pub open spec fn status_spec(v: WarpSyncView) -> SyncStatus {
    SyncStatus {
        state: match v.phase {
            Phase::TargetBlock(header) => SyncState::Downloading { target: header.number },
            Phase::Complete => SyncState::Idle,
            _ => SyncState::Downloading { target: 0 },
        },
        best_seen_block: match v.phase {
            Phase::TargetBlock(header) => Some(header.number),
            _ => None,
        },
        num_peers: saturated_u32(v.peers.len()),
        num_connected_peers: saturated_u32(v.peers.len()),
        queued_blocks: 0,
        state_sync: None,
        warp_sync: Some(progress_spec(v)),
    }
}

pub struct WarpSync<P> {
    phase: Phase,
    provider: Option<P>,
    genesis_hash: BlockHash,
    total_proof_bytes: u64,
    total_state_bytes: u64,
    peers: Vec<(PeerId, Peer)>,
    actions: Vec<WarpSyncAction>,
    result: Option<WarpSyncResult>,
}

impl<P> View for WarpSync<P> {
    type V = WarpSyncView;

    closed spec fn view(&self) -> WarpSyncView {
        WarpSyncView {
            phase: self.phase,
            has_provider: self.provider is Some,
            genesis_hash: self.genesis_hash,
            total_proof_bytes: self.total_proof_bytes,
            total_state_bytes: self.total_state_bytes,
            peers: self.peers@,
            actions: self.actions@,
            result: self.result,
        }
    }
}

impl<P: WarpSyncProvider> WarpSync<P> {
    /// The engine's invariant.
    pub open spec fn wf(&self) -> bool {
        &&& wf_view(self@)
        &&& self@.has_provider == (self.provider_spec() is Some)
    }

    /// The proof provider that the engine holds, if any.
    pub closed spec fn provider_spec(&self) -> Option<P> {
        self.provider
    }

    /// Create a new instance. When passing a warp sync provider we will be checking for proof
    /// and authorities. Alternatively we can pass a target block when we want to skip
    /// downloading proofs, in this case we will continue polling until the target block is
    /// known. A local chain that already has finalized state cannot be warp synced: the
    /// engine is then complete at once, with `Finished` queued and no result.
    pub fn new(client: ChainInfo, warp_sync_config: WarpSyncConfig<P>) -> (r: Self)
        ensures
            r.wf(),
            r@.genesis_hash == client.genesis_hash,
            r@.total_proof_bytes == 0,
            r@.peers.len() == 0,
            r@.result is None,
            client.finalized_state is Some ==> r@.phase is Complete && r@.actions == seq![
                WarpSyncAction::Finished,
            ] && r.provider_spec() is None,
            client.finalized_state is None ==> r@.actions.len() == 0 && match warp_sync_config {
                WarpSyncConfig::WithProvider(p) => r@.phase is WaitingForPeers
                    && r@.phase->WaitingForPeers_required_peers == MIN_PEERS_TO_START_WARP_SYNC
                    && p.gives_authorities(r@.phase->WaitingForPeers_authorities@)
                    && r.provider_spec() == Some(p),
                WarpSyncConfig::WaitForTarget => r@.phase is PendingTargetBlock
                    && r.provider_spec() is None,
            },
    {
        if client.finalized_state.is_some() {
            let mut actions: Vec<WarpSyncAction> = Vec::new();
            actions.push(WarpSyncAction::Finished);
            let r = WarpSync {
                phase: Phase::Complete,
                provider: None,
                genesis_hash: client.genesis_hash,
                total_proof_bytes: 0,
                total_state_bytes: 0,
                peers: Vec::new(),
                actions,
                result: None,
            };
            assert(r@.actions == seq![WarpSyncAction::Finished]);
            return r;
        }
        let (phase, provider) = match warp_sync_config {
            WarpSyncConfig::WithProvider(provider) => {
                let authorities = provider.current_authorities();
                (
                    Phase::WaitingForPeers {
                        required_peers: MIN_PEERS_TO_START_WARP_SYNC,
                        authorities,
                    },
                    Some(provider),
                )
            },
            WarpSyncConfig::WaitForTarget => (Phase::PendingTargetBlock, None),
        };
        WarpSync {
            phase,
            provider,
            genesis_hash: client.genesis_hash,
            total_proof_bytes: 0,
            total_state_bytes: 0,
            peers: Vec::new(),
            actions: Vec::new(),
            result: None,
        }
    }

    /// Set target block externally in case we skip warp proof downloading. Outside the phase
    /// that waits for it the call is a misuse and changes nothing.
    pub fn set_target_block(&mut self, header: Header)
        requires
            old(self).wf(),
        ensures
            final(self).wf(),
            final(self)@ == set_target_block_spec(old(self)@, header),
            final(self).provider_spec() == old(self).provider_spec(),
    {
        if let Phase::PendingTargetBlock = self.phase {
            self.phase = Phase::TargetBlock(header);
        }
    }

    /// Notify that a new peer has connected.
    pub fn add_peer(&mut self, peer_id: PeerId, _best_hash: BlockHash, best_number: BlockNumber)
        requires
            old(self).wf(),
        ensures
            final(self).wf(),
            final(self)@ == add_peer_spec(old(self)@, peer_id, best_number),
            final(self).provider_spec() == old(self).provider_spec(),
    {
        let ghost s = self.peers@;
        insert_peer(&mut self.peers, peer_id, Peer { best_number, state: PeerState::Available });
        proof {
            lemma_insert_available_keeps_single_flight(s, peer_id, best_number, PeerState::DownloadingProofs);
            lemma_insert_available_keeps_single_flight(s, peer_id, best_number, PeerState::DownloadingTargetBlock);
        }
        self.try_to_start_warp_sync();
    }

    /// Notify that a peer has disconnected.
    pub fn remove_peer(&mut self, peer_id: &PeerId)
        requires
            old(self).wf(),
        ensures
            final(self).wf(),
            final(self)@ == remove_peer_spec(old(self)@, *peer_id),
            final(self).provider_spec() == old(self).provider_spec(),
    {
        let ghost s = self.peers@;
        remove_peer_entry(&mut self.peers, peer_id);
        proof {
            lemma_remove_keeps_single_flight(s, *peer_id, PeerState::DownloadingProofs);
            lemma_remove_keeps_single_flight(s, *peer_id, PeerState::DownloadingTargetBlock);
        }
    }

    /// Process warp proof response. In the proof phase the provider verifies the proof
    /// against the current authority set id and authorities; whatever it answers, the engine
    /// ends as [`Self::on_warp_proof_verified`] leaves it for that answer. Outside the proof
    /// phase the provider is not asked and the peer is dropped as unexpected.
    pub fn on_warp_proof_response(&mut self, peer_id: &PeerId, response: EncodedProof)
        requires
            old(self).wf(),
        ensures
            final(self).wf(),
            final(self).provider_spec() == old(self).provider_spec(),
            old(self)@.phase is WarpProof ==> exists|outcome: Result<VerificationResult, String>|
                old(self).provider_spec()->Some_0.verifies(
                    response.0@,
                    old(self)@.phase->WarpProof_set_id,
                    old(self)@.phase->WarpProof_authorities@,
                    outcome,
                ) && final(self)@ == proof_response_spec(
                    old(self)@,
                    *peer_id,
                    response.0@.len(),
                    outcome,
                ),
            exists|outcome: Result<VerificationResult, String>|
                final(self)@ == proof_response_spec(
                    old(self)@,
                    *peer_id,
                    response.0@.len(),
                    outcome,
                ),
    {
        let outcome = match &self.phase {
            Phase::WarpProof { set_id, authorities, .. } => match &self.provider {
                Some(provider) => {
                    let current = authorities.clone();
                    assert(current@ =~= authorities@);
                    provider.verify(&response, *set_id, current)
                },
                None => {
                    return ;
                },
            },
            _ => {
                let ghost v0 = self@;
                let ghost s = self.peers@;
                set_peer_state(&mut self.peers, peer_id, PeerState::Available);
                proof {
                    lemma_set_available_keeps_single_flight(s, *peer_id, PeerState::DownloadingProofs);
                    lemma_set_available_keeps_single_flight(s, *peer_id, PeerState::DownloadingTargetBlock);
                }
                self.actions.push(
                    WarpSyncAction::DropPeer(
                        BadPeer { peer_id: *peer_id, reason: BadPeerReason::UnexpectedResponse },
                    ),
                );
                proof {
                    let o: Result<VerificationResult, String> = arbitrary();
                    assert(self@ == proof_response_spec(v0, *peer_id, response.0@.len(), o));
                }
                return ;
            },
        };
        self.on_warp_proof_verified(peer_id, response.0.len(), outcome);
    }

    /// Process the provider's verdict on a warp proof of `proof_len` bytes received from
    /// `peer_id`. The peer becomes available again. Outside the proof phase the response was
    /// unexpected and the peer is dropped. In the proof phase a failed verification drops the
    /// peer; a partial proof moves the proof frontier; a complete proof moves on to
    /// downloading the target block. A verified proof adds its length to the byte count.
    pub fn on_warp_proof_verified(
        &mut self,
        peer_id: &PeerId,
        proof_len: usize,
        outcome: Result<VerificationResult, String>,
    )
        requires
            old(self).wf(),
        ensures
            final(self).wf(),
            final(self)@ == proof_response_spec(old(self)@, *peer_id, proof_len as nat, outcome),
            final(self).provider_spec() == old(self).provider_spec(),
    {
        let ghost s = self.peers@;
        set_peer_state(&mut self.peers, peer_id, PeerState::Available);
        proof {
            lemma_set_available_keeps_single_flight(s, *peer_id, PeerState::DownloadingProofs);
            lemma_set_available_keeps_single_flight(s, *peer_id, PeerState::DownloadingTargetBlock);
        }
        let mut old_phase = Phase::Complete;
        std::mem::swap(&mut self.phase, &mut old_phase);
        match old_phase {
            Phase::WarpProof { set_id, authorities, last_hash } => match outcome {
                Err(_) => {
                    self.phase = Phase::WarpProof { set_id, authorities, last_hash };
                    self.actions.push(
                        WarpSyncAction::DropPeer(
                            BadPeer { peer_id: *peer_id, reason: BadPeerReason::BadWarpProof },
                        ),
                    );
                },
                Ok(VerificationResult::Partial(new_set_id, new_authorities, new_last_hash)) => {
                    self.phase = Phase::WarpProof {
                        set_id: new_set_id,
                        authorities: new_authorities,
                        last_hash: new_last_hash,
                    };
                    self.total_proof_bytes = self.total_proof_bytes.saturating_add(proof_len as u64);
                },
                Ok(VerificationResult::Complete(_, _, header)) => {
                    self.phase = Phase::TargetBlock(header);
                    self.total_proof_bytes = self.total_proof_bytes.saturating_add(proof_len as u64);
                },
            },
            other => {
                self.phase = other;
                self.actions.push(
                    WarpSyncAction::DropPeer(
                        BadPeer { peer_id: *peer_id, reason: BadPeerReason::UnexpectedResponse },
                    ),
                );
            },
        }
    }

    /// Process (target) block response.
    pub fn on_block_response(&mut self, peer_id: PeerId, request: BlockRequest, blocks: Vec<BlockData>)
        requires
            old(self).wf(),
        ensures
            final(self).wf(),
            final(self)@ == block_response_spec(old(self)@, peer_id, request, blocks@),
            final(self).provider_spec() == old(self).provider_spec(),
    {
        if let Err(bad_peer) = self.on_block_response_inner(peer_id, request, blocks) {
            self.actions.push(WarpSyncAction::DropPeer(bad_peer));
        }
    }

    fn on_block_response_inner(
        &mut self,
        peer_id: PeerId,
        request: BlockRequest,
        blocks: Vec<BlockData>,
    ) -> (r: Result<(), BadPeer>)
        requires
            old(self).wf(),
        ensures
            final(self).wf(),
            final(self)@ == block_response_inner_spec(old(self)@, peer_id, request, blocks@),
            final(self).provider_spec() == old(self).provider_spec(),
            match target_block_fault(old(self)@.phase, request, blocks@) {
                Some(reason) => r == Err::<(), BadPeer>(BadPeer { peer_id, reason }),
                None => r is Ok,
            },
    {
        let mut blocks = blocks;
        let ghost s = self.peers@;
        set_peer_state(&mut self.peers, &peer_id, PeerState::Available);
        proof {
            lemma_set_available_keeps_single_flight(s, peer_id, PeerState::DownloadingProofs);
            lemma_set_available_keeps_single_flight(s, peer_id, PeerState::DownloadingTargetBlock);
        }
        let header = match &self.phase {
            Phase::TargetBlock(header) => *header,
            _ => {
                return Err(BadPeer { peer_id, reason: BadPeerReason::UnexpectedResponse });
            },
        };
        if blocks.len() == 0 {
            return Err(BadPeer { peer_id, reason: BadPeerReason::NoBlock });
        }
        if blocks.len() > 1 {
            return Err(BadPeer { peer_id, reason: BadPeerReason::NotRequested });
        }
        if let Err(bad_peer) = validate_blocks(&blocks, &peer_id, Some(request)) {
            return Err(bad_peer);
        }
        let ghost b0 = blocks@[0];
        let block = match blocks.pop() {
            Some(block) => block,
            None => {
                return Err(BadPeer { peer_id, reason: BadPeerReason::NoBlock });
            },
        };
        assert(block == b0);
        match &block.header {
            Some(block_header) => {
                if *block_header != header {
                    return Err(BadPeer { peer_id, reason: BadPeerReason::VerificationFail });
                }
            },
            None => {
                return Err(BadPeer { peer_id, reason: BadPeerReason::VerificationFail });
            },
        }
        if block.body.is_none() {
            return Err(BadPeer { peer_id, reason: BadPeerReason::VerificationFail });
        }
        self.result = Some(
            WarpSyncResult {
                target_header: header,
                target_body: block.body,
                target_justifications: block.justifications,
            },
        );
        self.phase = Phase::Complete;
        self.actions.push(WarpSyncAction::Finished);
        Ok(())
    }

    /// Produce warp proof request.
    fn warp_proof_request(&mut self) -> (r: Option<(PeerId, WarpProofRequest)>)
        requires
            old(self).wf(),
        ensures
            final(self).wf(),
            final(self)@ == proof_request_step(old(self)@).0,
            final(self).provider_spec() == old(self).provider_spec(),
            proof_request_step(old(self)@).1 == match r {
                Some(x) => Some(WarpSyncAction::SendWarpProofRequest { peer_id: x.0, request: x.1 }),
                None => None::<WarpSyncAction>,
            },
    {
        let begin = match &self.phase {
            Phase::WarpProof { last_hash, .. } => *last_hash,
            _ => {
                return None;
            },
        };
        if any_peer_in_state(&self.peers, PeerState::DownloadingProofs) {
            // Only one warp proof request at a time is possible.
            return None;
        }
        let i = match select_synced_available_peer(&self.peers, None) {
            Some(i) => i,
            None => {
                return None;
            },
        };
        let peer_id = self.peers[i].0;
        let best_number = self.peers[i].1.best_number;
        let ghost s = self.peers@;
        self.peers.set(i, (peer_id, Peer { best_number, state: PeerState::DownloadingProofs }));
        proof {
            lemma_mark_keeps_single_flight(s, i as int, PeerState::DownloadingProofs, PeerState::DownloadingProofs);
            lemma_mark_keeps_single_flight(s, i as int, PeerState::DownloadingProofs, PeerState::DownloadingTargetBlock);
        }
        Some((peer_id, WarpProofRequest { begin }))
    }

    /// Produce target block request.
    fn target_block_request(&mut self) -> (r: Option<(PeerId, BlockRequest)>)
        requires
            old(self).wf(),
        ensures
            final(self).wf(),
            final(self)@ == block_request_step(old(self)@).0,
            final(self).provider_spec() == old(self).provider_spec(),
            block_request_step(old(self)@).1 == match r {
                Some(x) => Some(WarpSyncAction::SendBlockRequest { peer_id: x.0, request: x.1 }),
                None => None::<WarpSyncAction>,
            },
    {
        let target_header = match &self.phase {
            Phase::TargetBlock(target_header) => *target_header,
            _ => {
                return None;
            },
        };
        if any_peer_in_state(&self.peers, PeerState::DownloadingTargetBlock) {
            // Only one target block request at a time is possible.
            return None;
        }
        let target_hash = target_header.hash();
        let target_number = target_header.number();
        let i = match select_synced_available_peer(&self.peers, Some(target_number)) {
            Some(i) => i,
            None => {
                return None;
            },
        };
        let peer_id = self.peers[i].0;
        let best_number = self.peers[i].1.best_number;
        let ghost s = self.peers@;
        self.peers.set(i, (peer_id, Peer { best_number, state: PeerState::DownloadingTargetBlock }));
        proof {
            lemma_mark_keeps_single_flight(s, i as int, PeerState::DownloadingTargetBlock, PeerState::DownloadingProofs);
            lemma_mark_keeps_single_flight(s, i as int, PeerState::DownloadingTargetBlock, PeerState::DownloadingTargetBlock);
        }
        Some(
            (
                peer_id,
                BlockRequest {
                    id: 0,
                    fields: BlockAttributes { header: true, body: true, justification: true },
                    from: FromBlock::Hash(target_hash),
                    direction: Direction::Ascending,
                    max: Some(1),
                },
            ),
        )
    }

    /// Returns warp sync estimated progress (stage, bytes received).
    pub fn progress(&self) -> (r: WarpSyncProgress)
        requires
            self.wf(),
        ensures
            r == progress_spec(self@),
    {
        match &self.phase {
            Phase::WaitingForPeers { required_peers, .. } => WarpSyncProgress {
                phase: WarpSyncPhase::AwaitingPeers { required_peers: *required_peers },
                total_bytes: self.total_proof_bytes,
            },
            Phase::WarpProof { .. } => WarpSyncProgress {
                phase: WarpSyncPhase::DownloadingWarpProofs,
                total_bytes: self.total_proof_bytes,
            },
            Phase::TargetBlock(_) => WarpSyncProgress {
                phase: WarpSyncPhase::DownloadingTargetBlock,
                total_bytes: self.total_proof_bytes,
            },
            Phase::PendingTargetBlock => WarpSyncProgress {
                phase: WarpSyncPhase::AwaitingTargetBlock,
                total_bytes: self.total_proof_bytes,
            },
            Phase::Complete => WarpSyncProgress {
                phase: WarpSyncPhase::Complete,
                total_bytes: self.total_proof_bytes + self.total_state_bytes,
            },
        }
    }

    /// The current phase.
    pub fn phase(&self) -> (r: &Phase)
        ensures
            *r == self@.phase,
    {
        &self.phase
    }

    /// Get the number of peers known to warp sync.
    pub fn num_peers(&self) -> (r: usize)
        ensures
            r == self@.peers.len(),
    {
        self.peers.len()
    }

    /// Returns the current sync status.
    pub fn status(&self) -> (r: SyncStatus)
        requires
            self.wf(),
        ensures
            r == status_spec(self@),
    {
        let n = self.peers.len();
        let num_peers: u32 = if n > u32::MAX as usize {
            u32::MAX
        } else {
            n as u32
        };
        SyncStatus {
            state: match &self.phase {
                Phase::WaitingForPeers { .. } => SyncState::Downloading { target: 0 },
                Phase::WarpProof { .. } => SyncState::Downloading { target: 0 },
                Phase::PendingTargetBlock => SyncState::Downloading { target: 0 },
                Phase::TargetBlock(header) => SyncState::Downloading { target: header.number() },
                Phase::Complete => SyncState::Idle,
            },
            best_seen_block: match &self.phase {
                Phase::WaitingForPeers { .. } => None,
                Phase::WarpProof { .. } => None,
                Phase::PendingTargetBlock => None,
                Phase::TargetBlock(header) => Some(header.number()),
                Phase::Complete => None,
            },
            num_peers,
            num_connected_peers: num_peers,
            queued_blocks: 0,
            state_sync: None,
            warp_sync: Some(self.progress()),
        }
    }

    /// Get actions that should be performed by the owner on [`WarpSync`]'s behalf: the queued
    /// ones, then a warp proof request or a target block request where one is due.
    pub fn actions(&mut self) -> (r: Vec<WarpSyncAction>)
        requires
            old(self).wf(),
        ensures
            final(self).wf(),
            (final(self)@, r@) == actions_spec(old(self)@),
            final(self).provider_spec() == old(self).provider_spec(),
    {
        let mut out: Vec<WarpSyncAction> = Vec::new();
        std::mem::swap(&mut self.actions, &mut out);
        let ghost queued = out@;
        if let Some((peer_id, request)) = self.warp_proof_request() {
            out.push(WarpSyncAction::SendWarpProofRequest { peer_id, request });
        }
        let ghost after_proof = out@;
        if let Some((peer_id, request)) = self.target_block_request() {
            out.push(WarpSyncAction::SendBlockRequest { peer_id, request });
        }
        proof {
            let v = actions_spec(old(self)@);
            assert(out@ =~= v.1);
            assert(self@.actions =~= Seq::<WarpSyncAction>::empty());
        }
        out
    }

    /// Hands out the result of a successful warp sync, once.
    pub fn take_result(&mut self) -> (r: Option<WarpSyncResult>)
        requires
            old(self).wf(),
        ensures
            final(self).wf(),
            r == old(self)@.result,
            final(self)@ == (WarpSyncView { result: None, ..old(self)@ }),
            final(self).provider_spec() == old(self).provider_spec(),
    {
        self.result.take()
    }

    /// Start warp sync as soon as we have enough peers.
    fn try_to_start_warp_sync(&mut self)
        requires
            keys_unique(old(self)@.peers),
            at_most_one_in_state(old(self)@.peers, PeerState::DownloadingProofs),
            at_most_one_in_state(old(self)@.peers, PeerState::DownloadingTargetBlock),
            old(self)@.total_state_bytes == 0,
            (old(self)@.phase is WaitingForPeers || old(self)@.phase is WarpProof)
                ==> old(self)@.has_provider,
            old(self)@.phase is WaitingForPeers ==> old(self)@.peers.len()
                <= old(self)@.phase->WaitingForPeers_required_peers,
            old(self)@.phase is WaitingForPeers ==> old(self)@.phase->WaitingForPeers_required_peers
                == MIN_PEERS_TO_START_WARP_SYNC,
            forall|i: int|
                0 <= i < old(self)@.actions.len() ==> is_queued_kind(#[trigger] old(self)@.actions[i]),
            old(self)@.result is Some ==> old(self)@.phase is Complete,
            old(self)@.has_provider == (old(self).provider_spec() is Some),
        ensures
            final(self).wf(),
            final(self)@ == try_start_spec(old(self)@),
            final(self).provider_spec() == old(self).provider_spec(),
    {
        let required = match &self.phase {
            Phase::WaitingForPeers { required_peers, .. } => *required_peers,
            _ => return ,
        };
        if self.peers.len() < required {
            return ;
        }
        let mut old_phase = Phase::Complete;
        std::mem::swap(&mut self.phase, &mut old_phase);
        match old_phase {
            Phase::WaitingForPeers { authorities, .. } => {
                self.phase = Phase::WarpProof {
                    set_id: 0,
                    authorities,
                    last_hash: self.genesis_hash,
                };
            },
            _ => {},
        }
    }
}

/// Overwriting or adding an available peer keeps at most one peer in the downloading state
/// `st`.
pub(crate) proof fn lemma_insert_available_keeps_single_flight(
    s: Seq<(PeerId, Peer)>,
    id: PeerId,
    best_number: BlockNumber,
    st: PeerState,
)
    requires
        keys_unique(s),
        at_most_one_in_state(s, st),
        st != PeerState::Available,
    ensures
        at_most_one_in_state(with_peer(s, id, Peer { best_number, state: PeerState::Available }), st),
{
    let t = with_peer(s, id, Peer { best_number, state: PeerState::Available });
    assert forall|i: int, j: int|
        0 <= i < t.len() && 0 <= j < t.len() && (#[trigger] t[i]).1.state == st && (
        #[trigger] t[j]).1.state == st implies i == j by {
        if has_peer(s, id) {
            let k = index_of(s, id);
            assert(i != k && j != k);
        } else {
            assert(i != s.len() && j != s.len());
        }
        assert(s[i] == t[i] && s[j] == t[j]);
    }
}

/// Removing a peer keeps at most one peer in the downloading state `st`.
proof fn lemma_remove_keeps_single_flight(s: Seq<(PeerId, Peer)>, id: PeerId, st: PeerState)
    requires
        keys_unique(s),
        at_most_one_in_state(s, st),
    ensures
        at_most_one_in_state(without_peer(s, id), st),
{
    let t = without_peer(s, id);
    if has_peer(s, id) {
        let k = index_of(s, id);
        assert forall|i: int, j: int|
            0 <= i < t.len() && 0 <= j < t.len() && (#[trigger] t[i]).1.state == st && (
            #[trigger] t[j]).1.state == st implies i == j by {
            let i0 = if i < k { i } else { i + 1 };
            let j0 = if j < k { j } else { j + 1 };
            assert(s[i0] == t[i] && s[j0] == t[j]);
        }
    }
}

/// Making a peer available keeps at most one peer in the downloading state `st`.
proof fn lemma_set_available_keeps_single_flight(s: Seq<(PeerId, Peer)>, id: PeerId, st: PeerState)
    requires
        keys_unique(s),
        at_most_one_in_state(s, st),
        st != PeerState::Available,
    ensures
        at_most_one_in_state(with_state(s, id, PeerState::Available), st),
{
    let t = with_state(s, id, PeerState::Available);
    if has_peer(s, id) {
        let k = index_of(s, id);
        assert forall|i: int, j: int|
            0 <= i < t.len() && 0 <= j < t.len() && (#[trigger] t[i]).1.state == st && (
            #[trigger] t[j]).1.state == st implies i == j by {
            assert(i != k && j != k);
            assert(s[i] == t[i] && s[j] == t[j]);
        }
    }
}

/// Putting an available peer into the state `marked` keeps identities distinct and at most
/// one peer in the state `st`, provided no peer was in `marked` when `st` is `marked`.
pub proof fn lemma_mark_keeps_single_flight(
    s: Seq<(PeerId, Peer)>,
    i: int,
    marked: PeerState,
    st: PeerState,
)
    requires
        keys_unique(s),
        at_most_one_in_state(s, st),
        0 <= i < s.len(),
        s[i].1.state == PeerState::Available,
        st == marked ==> !any_in_state(s, marked),
    ensures
        keys_unique(mark_peer(s, i, marked)),
        at_most_one_in_state(mark_peer(s, i, marked), st),
{
    let t = mark_peer(s, i, marked);
    assert forall|a: int, b: int| 0 <= a < b < t.len() implies (#[trigger] t[a]).0 != (
    #[trigger] t[b]).0 by {
        assert(s[a].0 == t[a].0 && s[b].0 == t[b].0);
    }
    assert forall|a: int, b: int|
        0 <= a < t.len() && 0 <= b < t.len() && (#[trigger] t[a]).1.state == st && (
        #[trigger] t[b]).1.state == st implies a == b by {
        if a != i {
            assert(s[a] == t[a]);
        }
        if b != i {
            assert(s[b] == t[b]);
        }
    }
}

} // verus!
