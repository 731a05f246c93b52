use h3_client::connection::{CloseCause, Connection, ConnectionState};
use h3_client::error::{ClientError, HandshakeFailure};

fn established() -> Connection {
    let mut connection = Connection::new();
    connection.handshake_completed().unwrap();
    connection
}

#[test]
fn a_new_connection_is_connecting() {
    let connection = Connection::new();
    assert_eq!(connection.state(), ConnectionState::Connecting);
    assert_eq!(connection.in_flight(), 0);
    assert_eq!(connection.opened(), 0);
    assert_eq!(connection.close_cause(), None);
    assert!(!connection.is_ready());
}

#[test]
fn no_stream_before_the_handshake_completes() {
    let mut connection = Connection::new();
    assert_eq!(connection.open_stream().err(), Some(ClientError::ConnectionNotReady));
    assert_eq!(connection.state(), ConnectionState::Connecting);
    assert_eq!(connection.opened(), 0);
    assert_eq!(connection.in_flight(), 0);
}

#[test]
fn no_stream_after_a_failed_handshake() {
    let mut connection = Connection::new();
    let e = connection.handshake_failed(HandshakeFailure::Timeout);
    assert_eq!(e, ClientError::HandshakeError(HandshakeFailure::Timeout));
    assert_eq!(connection.state(), ConnectionState::Closed);
    assert_eq!(connection.open_stream().err(), Some(ClientError::ConnectionNotReady));
    assert_eq!(connection.handshake_completed(), Err(ClientError::OrderingViolation));
    assert_eq!(connection.state(), ConnectionState::Closed);
}

#[test]
fn handshake_failure_keeps_its_kind() {
    let mut connection = Connection::new();
    assert_eq!(
        connection.handshake_failed(HandshakeFailure::Tls),
        ClientError::HandshakeError(HandshakeFailure::Tls)
    );
    let mut other = Connection::new();
    assert_eq!(
        other.handshake_failed(HandshakeFailure::VersionMismatch),
        ClientError::HandshakeError(HandshakeFailure::VersionMismatch)
    );
}

#[test]
fn a_late_handshake_failure_does_not_close_an_established_connection() {
    let mut connection = established();
    let _ = connection.handshake_failed(HandshakeFailure::Timeout);
    assert_eq!(connection.state(), ConnectionState::Established);
}

#[test]
fn the_handshake_completes_once() {
    let mut connection = established();
    assert_eq!(connection.handshake_completed(), Err(ClientError::OrderingViolation));
    assert_eq!(connection.state(), ConnectionState::Established);
}

#[test]
fn streams_are_numbered_in_order() {
    let mut connection = established();
    let first = connection.open_stream().unwrap();
    let second = connection.open_stream().unwrap();
    let third = connection.open_stream().unwrap();
    assert_eq!((first.id(), second.id(), third.id()), (0, 1, 2));
    assert_eq!(connection.opened(), 3);
    assert_eq!(connection.in_flight(), 3);
    connection.release_stream(second);
    assert_eq!(connection.in_flight(), 2);
    assert_eq!(connection.opened(), 3);
    let fourth = connection.open_stream().unwrap();
    assert_eq!(fourth.id(), 3);
}

#[test]
fn releasing_with_nothing_in_flight_changes_nothing() {
    let mut first = established();
    let mut second = established();
    let stream = first.open_stream().unwrap();
    second.release_stream(stream);
    assert_eq!(second.in_flight(), 0);
    assert_eq!(second.state(), ConnectionState::Established);
}

#[test]
fn local_close_waits_for_streams_in_flight() {
    let mut connection = established();
    let stream = connection.open_stream().unwrap();
    assert!(!connection.begin_close(CloseCause::Local));
    assert_eq!(connection.state(), ConnectionState::Established);
    assert_eq!(connection.close_cause(), None);
    connection.release_stream(stream);
    assert!(connection.begin_close(CloseCause::Local));
    assert_eq!(connection.state(), ConnectionState::Closing);
    assert_eq!(connection.close_cause(), Some(CloseCause::Local));
    assert!(connection.finish_close());
    assert_eq!(connection.state(), ConnectionState::Closed);
}

#[test]
fn peer_close_does_not_wait_but_closed_does() {
    let mut connection = established();
    let stream = connection.open_stream().unwrap();
    assert!(connection.begin_close(CloseCause::Peer));
    assert_eq!(connection.state(), ConnectionState::Closing);
    assert_eq!(connection.close_cause(), Some(CloseCause::Peer));
    assert!(!connection.finish_close());
    assert_eq!(connection.state(), ConnectionState::Closing);
    assert_eq!(connection.open_stream().err(), Some(ClientError::ConnectionNotReady));
    connection.release_stream(stream);
    assert!(connection.finish_close());
    assert_eq!(connection.state(), ConnectionState::Closed);
    assert_eq!(connection.in_flight(), 0);
}

#[test]
fn idle_timeout_closes_an_established_connection() {
    let mut connection = established();
    assert!(connection.begin_close(CloseCause::IdleTimeout));
    assert_eq!(connection.close_cause(), Some(CloseCause::IdleTimeout));
    assert!(!connection.begin_close(CloseCause::Local));
    assert_eq!(connection.close_cause(), Some(CloseCause::IdleTimeout));
}

#[test]
fn close_is_refused_before_the_connection_is_established() {
    let mut connection = Connection::new();
    assert!(!connection.begin_close(CloseCause::Local));
    assert!(!connection.begin_close(CloseCause::Peer));
    assert!(!connection.finish_close());
    assert_eq!(connection.state(), ConnectionState::Connecting);
}
