use scream::event::EventBuilder;
use scream::event::NoteEvent;
use scream::keys::KeyPair;
use scream::relay::Ack;
use scream::relay::endpoint_is_secure;
use scream::relay::ConnectedHandle;
use scream::relay::ConnectionError;
use scream::relay::ConnectionState;
use scream::relay::PublishError;
use scream::relay::RelayConnection;
use scream::relay::RelayReply;

fn connected() -> ConnectedHandle {
    let mut conn = RelayConnection::new("wss://relay.example".to_string());
    assert_eq!(conn.dial(), Ok(()));
    conn.established(Ok(())).ok().unwrap()
}

fn note() -> NoteEvent {
    let pair = KeyPair::from_secret(vec![1u8; 32]).ok().unwrap();
    EventBuilder::build("hello", &pair, 1_700_000_000).ok().unwrap()
}

#[test]
fn a_new_connection_is_disconnected() {
    let conn = RelayConnection::new("wss://relay.example".to_string());
    assert_eq!(conn.state(), ConnectionState::Disconnected);
    assert_eq!(conn.endpoint_url(), "wss://relay.example");
}

#[test]
fn dial_moves_to_connecting_once() {
    let mut conn = RelayConnection::new("wss://relay.example".to_string());
    assert_eq!(conn.dial(), Ok(()));
    assert_eq!(conn.state(), ConnectionState::Connecting);
    assert_eq!(conn.dial(), Err(ConnectionError::Transport));
    assert_eq!(conn.state(), ConnectionState::Connecting);
    assert_eq!(conn.endpoint_url(), "wss://relay.example");
}

#[test]
fn a_successful_dial_gives_a_handle() {
    let mut conn = RelayConnection::new("wss://relay.example".to_string());
    let _ = conn.dial();
    let handle = conn.established(Ok(())).ok().unwrap();
    assert_eq!(conn.state(), ConnectionState::Connected);
    assert_eq!(handle.endpoint_url(), "wss://relay.example");
}

#[test]
fn a_failed_dial_gives_the_error() {
    let mut conn = RelayConnection::new("wss://relay.example".to_string());
    let _ = conn.dial();
    assert_eq!(
        conn.established(Err(ConnectionError::Timeout)).err(),
        Some(ConnectionError::Timeout)
    );
    assert_eq!(conn.state(), ConnectionState::Failed);

    let mut other = RelayConnection::new("wss://relay.example".to_string());
    let _ = other.dial();
    assert_eq!(
        other.established(Err(ConnectionError::Transport)).err(),
        Some(ConnectionError::Transport)
    );
    assert_eq!(other.state(), ConnectionState::Failed);
}

#[test]
fn a_report_without_a_dial_changes_nothing() {
    let mut conn = RelayConnection::new("wss://relay.example".to_string());
    assert_eq!(conn.established(Ok(())).err(), Some(ConnectionError::Transport));
    assert_eq!(conn.state(), ConnectionState::Disconnected);
    assert_eq!(
        conn.established(Err(ConnectionError::Timeout)).err(),
        Some(ConnectionError::Transport)
    );
    assert_eq!(conn.state(), ConnectionState::Disconnected);
}

#[test]
fn a_spent_connection_is_not_dialled_again() {
    let mut failed = RelayConnection::new("wss://relay.example".to_string());
    let _ = failed.dial();
    let _ = failed.established(Err(ConnectionError::Transport));
    assert_eq!(failed.dial(), Err(ConnectionError::Transport));
    assert_eq!(failed.state(), ConnectionState::Failed);
    assert_eq!(failed.established(Ok(())).err(), Some(ConnectionError::Transport));
    assert_eq!(failed.state(), ConnectionState::Failed);

    let mut open = RelayConnection::new("wss://relay.example".to_string());
    let _ = open.dial();
    let _ = open.established(Ok(()));
    assert_eq!(open.dial(), Err(ConnectionError::Transport));
    assert_eq!(open.established(Ok(())).err(), Some(ConnectionError::Transport));
    assert_eq!(open.state(), ConnectionState::Connected);
}

#[test]
fn an_accepted_event_is_acknowledged_by_its_identifier() {
    let event = note();
    let ack = connected().settle(&event, RelayReply::Accepted);
    assert_eq!(ack, Ok(Ack { event_id: event.id().clone() }));
}

#[test]
fn a_rejection_keeps_the_reason() {
    let event = note();
    assert_eq!(
        connected().settle(&event, RelayReply::Rejected("rate-limited".to_string())),
        Err(PublishError::Rejected("rate-limited".to_string()))
    );
    assert_eq!(
        connected().settle(&event, RelayReply::Rejected(String::new())),
        Err(PublishError::Rejected(String::new()))
    );
}

#[test]
fn a_missing_reply_is_a_timeout() {
    assert_eq!(connected().settle(&note(), RelayReply::TimedOut), Err(PublishError::Timeout));
}

#[test]
fn an_acknowledgment_for_the_event_is_its_reply() {
    let event = note();
    assert_eq!(
        RelayReply::from_message(&event, event.id(), true, String::new()),
        Some(RelayReply::Accepted)
    );
    assert_eq!(
        RelayReply::from_message(&event, event.id(), true, "duplicate: already have it".to_string()),
        Some(RelayReply::Accepted)
    );
    assert_eq!(
        RelayReply::from_message(&event, event.id(), false, "rate-limited".to_string()),
        Some(RelayReply::Rejected("rate-limited".to_string()))
    );
}

#[test]
fn an_acknowledgment_for_another_event_is_no_reply() {
    let event = note();
    let mut other = event.id().clone();
    other[31] ^= 1;
    assert_eq!(RelayReply::from_message(&event, &other, true, String::new()), None);
    assert_eq!(RelayReply::from_message(&event, &other, false, "blocked".to_string()), None);
    assert_eq!(RelayReply::from_message(&event, &vec![], true, String::new()), None);
}

#[test]
fn only_wss_endpoints_are_secure() {
    assert!(endpoint_is_secure("wss://nostr.mutinywallet.com"));
    assert!(endpoint_is_secure("wss://relay.example/path"));
    assert!(endpoint_is_secure("WSS://relay.example"));
    assert!(endpoint_is_secure("Wss://relay.example"));
    assert!(endpoint_is_secure("wss://"));
    assert!(!endpoint_is_secure("ws://relay.example"));
    assert!(!endpoint_is_secure("https://relay.example"));
    assert!(!endpoint_is_secure("wss:/relay.example"));
    assert!(!endpoint_is_secure("wss:/"));
    assert!(!endpoint_is_secure(" wss://relay.example"));
    assert!(!endpoint_is_secure("relay.example"));
    assert!(!endpoint_is_secure(""));
    assert!(!endpoint_is_secure("w\u{e9}s://relay.example"));
    assert!(endpoint_is_secure("wss://r\u{e9}lay.example"));
}

#[test]
fn an_insecure_endpoint_is_not_dialled() {
    let mut conn = RelayConnection::new("ws://relay.example".to_string());
    assert_eq!(conn.dial(), Err(ConnectionError::Insecure));
    assert_eq!(conn.state(), ConnectionState::Failed);
    assert_eq!(conn.dial(), Err(ConnectionError::Transport));
    assert_eq!(conn.established(Ok(())).err(), Some(ConnectionError::Transport));
    assert_eq!(conn.state(), ConnectionState::Failed);
    assert_eq!(conn.endpoint_url(), "ws://relay.example");
}
