use warp_sync::network::{Direction, NotificationSenderError};

#[test]
fn direction_is_inbound() {
    assert!(Direction::Inbound.is_inbound());
    assert!(!Direction::Outbound.is_inbound());
}

#[test]
fn notification_sender_error_messages() {
    assert_eq!(NotificationSenderError::Closed.message(), "The notification receiver has been closed");
    assert_eq!(NotificationSenderError::BadProtocol.message(), "Protocol name hasn't been registered");
}
