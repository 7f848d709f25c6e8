use warp_sync::peers::{
    select_synced_available_peer, sorted_best_numbers, Peer, PeerState,
};
use warp_sync::types::PeerId;

fn registry(entries: &[(u64, u64, PeerState)]) -> Vec<(PeerId, Peer)> {
    entries
        .iter()
        .map(|(id, best, state)| (PeerId(*id), Peer { best_number: *best, state: *state }))
        .collect()
}

#[test]
fn median_of_three_best_numbers() {
    let peers = registry(&[
        (1, 100, PeerState::Available),
        (2, 5, PeerState::Available),
        (3, 7, PeerState::Available),
    ]);
    assert_eq!(sorted_best_numbers(&peers), vec![5, 7, 100]);
    assert_eq!(sorted_best_numbers(&peers)[peers.len() / 2], 7);
}

#[test]
fn lagging_peer_is_never_selected() {
    // Best numbers 5, 7 and 100: the median is 7.
    let mut peers = registry(&[
        (1, 5, PeerState::Available),
        (2, 7, PeerState::Available),
        (3, 100, PeerState::Available),
    ]);
    assert_eq!(select_synced_available_peer(&peers, None), Some(1));
    peers[1].1.state = PeerState::DownloadingProofs;
    // The peer at 100 is eligible; the one at 5 still is not.
    assert_eq!(select_synced_available_peer(&peers, None), Some(2));
    peers[2].1.state = PeerState::DownloadingTargetBlock;
    assert_eq!(select_synced_available_peer(&peers, None), None);
}

#[test]
fn floor_raises_the_threshold() {
    let peers = registry(&[
        (1, 5, PeerState::Available),
        (2, 7, PeerState::Available),
        (3, 100, PeerState::Available),
    ]);
    assert_eq!(select_synced_available_peer(&peers, Some(50)), Some(2));
    assert_eq!(select_synced_available_peer(&peers, Some(101)), None);
    // A floor below the median leaves the median in force.
    assert_eq!(select_synced_available_peer(&peers, Some(1)), Some(1));
}

#[test]
fn empty_registry_selects_nobody() {
    let peers = registry(&[]);
    assert_eq!(select_synced_available_peer(&peers, None), None);
    assert!(sorted_best_numbers(&peers).is_empty());
}

#[test]
fn median_of_an_even_count_is_the_upper_middle() {
    let peers = registry(&[
        (1, 4, PeerState::Available),
        (2, 1, PeerState::Available),
        (3, 3, PeerState::Available),
        (4, 2, PeerState::Available),
    ]);
    assert_eq!(sorted_best_numbers(&peers), vec![1, 2, 3, 4]);
    assert_eq!(select_synced_available_peer(&peers, None), Some(0));
}

#[test]
fn equal_best_numbers_pick_the_first_available() {
    let peers = registry(&[
        (1, 9, PeerState::DownloadingProofs),
        (2, 9, PeerState::Available),
        (3, 9, PeerState::Available),
    ]);
    assert_eq!(sorted_best_numbers(&peers), vec![9, 9, 9]);
    assert_eq!(select_synced_available_peer(&peers, None), Some(1));
}

#[test]
fn peer_state_availability() {
    assert!(PeerState::Available.is_available());
    assert!(!PeerState::DownloadingProofs.is_available());
    assert!(!PeerState::DownloadingTargetBlock.is_available());
}
