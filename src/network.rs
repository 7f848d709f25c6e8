//! Plain types shared between the sync layer and the networking backend.
use vstd::prelude::*;

verus! {

/// Substream direction.
#[derive(Debug, Copy, Clone, PartialEq, Eq, Structural)]
pub enum Direction {
    /// Substream opened by the remote node.
    Inbound,
    /// Substream opened by the local node.
    Outbound,
}

impl Direction {
    /// Is the direction inbound.
    pub fn is_inbound(&self) -> (r: bool)
        ensures
            r <==> *self == Direction::Inbound,
    {
        matches!(self, Direction::Inbound)
    }
}

/// Substream acceptance result.
#[derive(Debug, Copy, Clone, PartialEq, Eq, Structural)]
pub enum ValidationResult {
    /// Accept inbound substream.
    Accept,
    /// Reject inbound substream.
    Reject,
}

/// Overview status of the network.
#[derive(Debug, Copy, Clone, PartialEq, Eq, Structural)]
pub struct NetworkStatus {
    /// Total number of connected peers.
    pub num_connected_peers: usize,
    /// The total number of bytes received.
    pub total_bytes_inbound: u64,
    /// The total number of bytes sent.
    pub total_bytes_outbound: u64,
}

/// Error returned when a notification cannot be sent.
#[derive(Debug, Copy, Clone, PartialEq, Eq, Structural)]
pub enum NotificationSenderError {
    /// The notification receiver has been closed, usually because the underlying connection
    /// closed.
    ///
    /// Some of the notifications most recently sent may not have been received. However,
    /// the peer may still be connected and a new sender for the same protocol may be
    /// obtained.
    Closed,
    /// Protocol name hasn't been registered.
    BadProtocol,
}

impl NotificationSenderError {
    /// Human-readable description of the error.
    pub fn message(&self) -> (r: &'static str)
        ensures
            *self == NotificationSenderError::Closed ==> r@ == "The notification receiver has been closed"@,
            *self == NotificationSenderError::BadProtocol ==> r@ == "Protocol name hasn't been registered"@,
    {
        match self {
            NotificationSenderError::Closed => {
                let r = "The notification receiver has been closed";
                proof {
                    reveal_strlit("The notification receiver has been closed");
                }
                r
            },
            NotificationSenderError::BadProtocol => {
                let r = "Protocol name hasn't been registered";
                proof {
                    reveal_strlit("Protocol name hasn't been registered");
                }
                r
            },
        }
    }
}

/// Reserved slot in the notifications buffer, ready to accept data.
pub trait NotificationSenderReady {
    /// Consumes this slots reservation and actually queues the notification.
    ///
    /// Traits can't consume themselves, but calling this method a second time returns an
    /// error.
    fn send(&mut self, notification: Vec<u8>) -> Result<(), NotificationSenderError>;
}

/// Provides ability to announce blocks to the network.
pub trait NetworkBlock<BlockHash, BlockNumber> {
    /// Make sure an important block is propagated to peers.
    ///
    /// In chain-based consensus, we often need to make sure non-best forks are
    /// at least temporarily synced. This function forces such an announcement.
    fn announce_block(&self, hash: BlockHash, data: Option<Vec<u8>>);

    /// Inform the network service about new best imported block.
    fn new_best_block_imported(&self, hash: BlockHash, number: BlockNumber);
}

} // verus!
