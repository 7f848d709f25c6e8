//! Warp synchronisation for a blockchain client: a state machine that bootstraps a node
//! from a chain of finality proofs and a single target block, together with the small
//! network-facing types that the sync layer exchanges with the networking backend.
pub mod message;
pub mod network;
pub mod peers;
pub mod text;
pub mod types;
pub mod warp;
pub mod warp_laws;
