//! Block requests and responses exchanged with peers, the penalties a peer incurs for a
//! bad response, and the generic sanity check of block data against its request.
use vstd::prelude::*;
use crate::types::{BlockHash, BlockNumber, Extrinsic, Header, Justifications, PeerId};

verus! {

/// Which parts of each block a request asks for.
#[derive(Debug, Copy, Clone, PartialEq, Eq, Structural)]
pub struct BlockAttributes {
    pub header: bool,
    pub body: bool,
    pub justification: bool,
}

/// Where a block request starts.
#[derive(Debug, Copy, Clone, PartialEq, Eq, Structural)]
pub enum FromBlock {
    /// Start from the block with this hash.
    Hash(BlockHash),
    /// Start from the block with this number.
    Number(BlockNumber),
}

/// In which direction a block request walks the chain.
#[derive(Debug, Copy, Clone, PartialEq, Eq, Structural)]
pub enum Direction {
    /// From the starting block towards its descendants.
    Ascending,
    /// From the starting block towards its ancestors.
    Descending,
}

/// A request for a run of blocks.
#[derive(Debug, Copy, Clone, PartialEq, Eq, Structural)]
pub struct BlockRequest {
    pub id: u64,
    pub fields: BlockAttributes,
    pub from: FromBlock,
    pub direction: Direction,
    /// Largest number of blocks to return; `None` sets no bound.
    pub max: Option<u32>,
}

/// One block record of a block response.
#[derive(Debug, Clone, PartialEq, Eq)]
pub struct BlockData {
    pub hash: BlockHash,
    pub header: Option<Header>,
    pub body: Option<Vec<Extrinsic>>,
    pub justifications: Option<Justifications>,
}

/// Why a peer is dropped and penalised.
#[derive(Debug, Copy, Clone, PartialEq, Eq, Structural)]
pub enum BadPeerReason {
    /// A response that was not expected in the current phase.
    UnexpectedResponse,
    /// A warp proof that failed verification.
    BadWarpProof,
    /// A block response without block data.
    NoBlock,
    /// Block data that was not asked for.
    NotRequested,
    /// A block that does not match what was expected.
    VerificationFail,
    /// A response that lacks parts that were asked for.
    BadResponse,
    /// A block whose header does not hash to the announced hash.
    BadBlock,
}

/// The reputation change that comes with each reason.
pub open spec fn reputation_of(reason: BadPeerReason) -> i32 {
    match reason {
        BadPeerReason::BadResponse => -4096i32,
        _ => -536870912i32,
    }
}

impl BadPeerReason {
    /// The reputation change applied to a peer dropped for this reason.
    pub fn reputation_value(&self) -> (r: i32)
        ensures
            r == reputation_of(*self),
    {
        match self {
            BadPeerReason::BadResponse => -4096,
            _ => -536870912,
        }
    }
}

/// A peer to drop, with the reason.
#[derive(Debug, Copy, Clone, PartialEq, Eq, Structural)]
pub struct BadPeer {
    pub peer_id: PeerId,
    pub reason: BadPeerReason,
}

/// The block of a response against which the request's starting point is checked: the last
/// one for a descending request, else the first.
pub open spec fn anchor_block(blocks: Seq<BlockData>, request: BlockRequest) -> BlockData
    recommends
        blocks.len() > 0,
{
    if request.direction == Direction::Descending {
        blocks.last()
    } else {
        blocks[0]
    }
}

/// Whether the response starts where the request asked it to.
pub open spec fn starts_as_requested(blocks: Seq<BlockData>, request: BlockRequest) -> bool {
    blocks.len() > 0 && match anchor_block(blocks, request).header {
        Some(h) => match request.from {
            FromBlock::Hash(hash) => h.hash == hash,
            FromBlock::Number(n) => h.number == n,
        },
        None => false,
    }
}

/// Whether the response holds more blocks than the request allows. A request without a
/// bound allows none, as `Option`'s order puts `None` below every `Some`.
pub open spec fn exceeds_max(blocks: Seq<BlockData>, request: BlockRequest) -> bool {
    match request.max {
        Some(m) => blocks.len() > m,
        None => true,
    }
}

/// Whether a block's header, if it has one, carries the block's announced hash.
pub open spec fn hash_consistent(b: BlockData) -> bool {
    match b.header {
        Some(h) => h.hash == b.hash,
        None => true,
    }
}

/// The first fault of a response against the request that produced it: too many blocks, a
/// wrong starting block, or a missing part that was asked for.
pub open spec fn shape_fault(blocks: Seq<BlockData>, req: BlockRequest) -> Option<BadPeerReason> {
    if exceeds_max(blocks, req) {
        Some(BadPeerReason::NotRequested)
    } else if !starts_as_requested(blocks, req) {
        Some(BadPeerReason::NotRequested)
    } else if req.fields.header && exists|i: int|
        0 <= i < blocks.len() && (#[trigger] blocks[i]).header is None {
        Some(BadPeerReason::BadResponse)
    } else if req.fields.body && exists|i: int|
        0 <= i < blocks.len() && (#[trigger] blocks[i]).body is None {
        Some(BadPeerReason::BadResponse)
    } else {
        None
    }
}

/// The first fault found in a block response, checked against the request that produced
/// it when one is given; `None` when the response passes.
pub open spec fn block_data_fault(blocks: Seq<BlockData>, request: Option<BlockRequest>) -> Option<
    BadPeerReason,
> {
    if request is Some && shape_fault(blocks, request->Some_0) is Some {
        shape_fault(blocks, request->Some_0)
    } else if exists|i: int| 0 <= i < blocks.len() && !hash_consistent(#[trigger] blocks[i]) {
        Some(BadPeerReason::BadBlock)
    } else {
        None
    }
}

/// The number of the first block of a response, when it carries a header.
pub open spec fn first_number(blocks: Seq<BlockData>) -> Option<BlockNumber> {
    if blocks.len() > 0 && blocks[0].header is Some {
        Some(blocks[0].header->Some_0.number)
    } else {
        None
    }
}

fn any_header_missing(blocks: &Vec<BlockData>) -> (r: bool)
    ensures
        r == exists|i: int| 0 <= i < blocks@.len() && (#[trigger] blocks@[i]).header is None,
{
    let mut i: usize = 0;
    while i < blocks.len()
        invariant
            i <= blocks@.len(),
            forall|j: int| 0 <= j < i ==> (#[trigger] blocks@[j]).header is Some,
        decreases blocks@.len() - i,
    {
        if blocks[i].header.is_none() {
            return true;
        }
        i = i + 1;
    }
    false
}

fn any_body_missing(blocks: &Vec<BlockData>) -> (r: bool)
    ensures
        r == exists|i: int| 0 <= i < blocks@.len() && (#[trigger] blocks@[i]).body is None,
{
    let mut i: usize = 0;
    while i < blocks.len()
        invariant
            i <= blocks@.len(),
            forall|j: int| 0 <= j < i ==> (#[trigger] blocks@[j]).body is Some,
        decreases blocks@.len() - i,
    {
        if blocks[i].body.is_none() {
            return true;
        }
        i = i + 1;
    }
    false
}

fn check_request_shape(blocks: &Vec<BlockData>, request: &BlockRequest) -> (r: Option<
    BadPeerReason,
>)
    ensures
        r == shape_fault(blocks@, *request),
{
    let too_many = match request.max {
        Some(m) => blocks.len() > m as usize,
        None => true,
    };
    if too_many {
        return Some(BadPeerReason::NotRequested);
    }
    if blocks.len() == 0 {
        return Some(BadPeerReason::NotRequested);
    }
    let anchor = if request.direction == Direction::Descending {
        blocks.len() - 1
    } else {
        0
    };
    let expected = match &blocks[anchor].header {
        Some(h) => match request.from {
            FromBlock::Hash(hash) => h.hash == hash,
            FromBlock::Number(n) => h.number == n,
        },
        None => false,
    };
    if !expected {
        return Some(BadPeerReason::NotRequested);
    }
    if request.fields.header && any_header_missing(blocks) {
        return Some(BadPeerReason::BadResponse);
    }
    if request.fields.body && any_body_missing(blocks) {
        return Some(BadPeerReason::BadResponse);
    }
    None
}

/// Sanity check of a block response: against the request that produced it, when given,
/// the number of blocks, the starting block and the presence of the requested parts; then,
/// for every block, that its header carries the block's hash. On success returns the number
/// of the first block, when it has a header; on failure the peer to drop.
pub fn validate_blocks(blocks: &Vec<BlockData>, peer_id: &PeerId, request: Option<BlockRequest>) -> (r:
    Result<Option<BlockNumber>, BadPeer>)
    ensures
        match block_data_fault(blocks@, request) {
            Some(reason) => r == Err::<Option<BlockNumber>, BadPeer>(
                BadPeer { peer_id: *peer_id, reason },
            ),
            None => r == Ok::<Option<BlockNumber>, BadPeer>(first_number(blocks@)),
        },
{
    if let Some(req) = &request {
        if let Some(reason) = check_request_shape(blocks, req) {
            return Err(BadPeer { peer_id: *peer_id, reason });
        }
    }
    let mut i: usize = 0;
    while i < blocks.len()
        invariant
            i <= blocks@.len(),
            request is Some ==> shape_fault(blocks@, request->Some_0) is None,
            forall|j: int| 0 <= j < i ==> hash_consistent(#[trigger] blocks@[j]),
        decreases blocks@.len() - i,
    {
        if let Some(h) = &blocks[i].header {
            if h.hash != blocks[i].hash {
                assert(!hash_consistent(blocks@[i as int]));
                return Err(BadPeer { peer_id: *peer_id, reason: BadPeerReason::BadBlock });
            }
        }
        i = i + 1;
    }
    if blocks.len() > 0 {
        if let Some(h) = &blocks[0].header {
            return Ok(Some(h.number));
        }
    }
    Ok(None)
}

} // verus!
