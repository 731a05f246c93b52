use h3_client::connection::{CloseCause, ConnectionState};
use h3_client::endpoint::{Endpoint, EndpointState};
use h3_client::error::{ClientError, HandshakeFailure};

#[test]
fn a_bound_endpoint_is_open_and_empty() {
    let endpoint = Endpoint::new();
    assert_eq!(endpoint.state(), EndpointState::Open);
    assert_eq!(endpoint.connections(), 0);
}

#[test]
fn an_originated_connection_starts_connecting() {
    let mut endpoint = Endpoint::new();
    let connection = endpoint.connect().unwrap();
    assert_eq!(connection.state(), ConnectionState::Connecting);
    assert_eq!(endpoint.connections(), 1);
    let _other = endpoint.connect().unwrap();
    assert_eq!(endpoint.connections(), 2);
}

#[test]
fn an_open_connection_is_not_taken_back() {
    let mut endpoint = Endpoint::new();
    let mut connection = endpoint.connect().unwrap();
    connection = endpoint.retire(connection).unwrap_err();
    assert_eq!(connection.state(), ConnectionState::Connecting);
    connection.handshake_completed().unwrap();
    connection = endpoint.retire(connection).unwrap_err();
    assert_eq!(connection.state(), ConnectionState::Established);
    assert!(connection.begin_close(CloseCause::Local));
    connection = endpoint.retire(connection).unwrap_err();
    assert_eq!(connection.state(), ConnectionState::Closing);
    assert_eq!(endpoint.connections(), 1);
    assert!(connection.finish_close());
    assert!(endpoint.retire(connection).is_ok());
    assert_eq!(endpoint.connections(), 0);
}

#[test]
fn a_connection_with_a_stream_in_flight_holds_the_endpoint_open() {
    let mut endpoint = Endpoint::new();
    let mut connection = endpoint.connect().unwrap();
    connection.handshake_completed().unwrap();
    let stream = connection.open_stream().unwrap();
    assert!(endpoint.begin_drain());
    assert!(connection.begin_close(CloseCause::Peer));
    assert!(!connection.finish_close());
    connection = endpoint.retire(connection).unwrap_err();
    assert!(!endpoint.finish_drain());
    assert_eq!(endpoint.state(), EndpointState::Draining);
    connection.release_stream(stream);
    assert!(connection.finish_close());
    assert!(endpoint.retire(connection).is_ok());
    assert!(endpoint.finish_drain());
    assert_eq!(endpoint.state(), EndpointState::Closed);
}

#[test]
fn a_failed_handshake_leaves_a_connection_that_can_be_taken_back() {
    let mut endpoint = Endpoint::new();
    let mut connection = endpoint.connect().unwrap();
    let _ = connection.handshake_failed(HandshakeFailure::Timeout);
    assert!(endpoint.retire(connection).is_ok());
    assert!(endpoint.begin_drain());
    assert!(endpoint.finish_drain());
    assert_eq!(endpoint.state(), EndpointState::Closed);
}

#[test]
fn a_draining_endpoint_originates_nothing() {
    let mut endpoint = Endpoint::new();
    assert!(endpoint.begin_drain());
    assert_eq!(endpoint.connect().err(), Some(ClientError::ConnectionNotReady));
    assert!(!endpoint.begin_drain());
    assert!(endpoint.finish_drain());
    assert_eq!(endpoint.connect().err(), Some(ClientError::ConnectionNotReady));
    assert_eq!(endpoint.connections(), 0);
}

#[test]
fn an_endpoint_does_not_close_before_it_drains() {
    let mut endpoint = Endpoint::new();
    assert!(!endpoint.finish_drain());
    assert_eq!(endpoint.state(), EndpointState::Open);
}

#[test]
fn a_closed_connection_of_another_endpoint_is_handed_back_to_an_empty_one() {
    let mut first = Endpoint::new();
    let mut second = Endpoint::new();
    let mut connection = first.connect().unwrap();
    let _ = connection.handshake_failed(HandshakeFailure::Tls);
    assert!(second.retire(connection).is_err());
    assert_eq!(second.connections(), 0);
}
