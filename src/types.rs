//! Identifiers and block records that the sync layer handles as plain values.
use vstd::prelude::*;

verus! {

/// Block number.
pub type BlockNumber = u64;

/// Identifier of a finality authority set; sets are numbered upward from zero.
pub type SetId = u64;

/// Voting weight of a finality authority.
pub type AuthorityWeight = u64;

/// Opaque identity of a connected peer.
#[derive(Debug, Copy, Clone, PartialEq, Eq, Hash, Structural)]
pub struct PeerId(pub u64);

/// A 256-bit block hash, as its high and low halves.
#[derive(Debug, Copy, Clone, PartialEq, Eq, Hash, Structural)]
pub struct BlockHash {
    pub high: u128,
    pub low: u128,
}

/// Public key of a finality authority, as its high and low halves.
#[derive(Debug, Copy, Clone, PartialEq, Eq, Hash, Structural)]
pub struct AuthorityId {
    pub high: u128,
    pub low: u128,
}

/// A finality authority together with its voting weight.
#[derive(Debug, Copy, Clone, PartialEq, Eq, Structural)]
pub struct Authority {
    pub id: AuthorityId,
    pub weight: AuthorityWeight,
}

/// The authorities of one authority set.
pub type AuthorityList = Vec<Authority>;

/// A block header. `hash` is the header's hash under the chain's hashing scheme; two
/// headers are the same header exactly when all their fields agree.
#[derive(Debug, Copy, Clone, PartialEq, Eq, Structural)]
pub struct Header {
    pub parent_hash: BlockHash,
    pub number: BlockNumber,
    pub state_root: BlockHash,
    pub extrinsics_root: BlockHash,
    pub hash: BlockHash,
}

impl Header {
    /// The header's hash.
    pub fn hash(&self) -> (r: BlockHash)
        ensures
            r == self.hash,
    {
        self.hash
    }

    /// The header's block number.
    pub fn number(&self) -> (r: BlockNumber)
        ensures
            r == self.number,
    {
        self.number
    }
}

/// An encoded extrinsic of a block body.
pub type Extrinsic = Vec<u8>;

/// A finality justification, tagged with the consensus engine that produced it.
#[derive(Debug, Clone, PartialEq, Eq)]
pub struct Justification {
    pub engine_id: [u8; 4],
    pub data: Vec<u8>,
}

/// The justifications that accompany a block.
pub type Justifications = Vec<Justification>;

} // verus!
