use h3_client::connection::Connection;
use h3_client::error::{ClientError, StreamFault};
use h3_client::exchange::{Exchange, ExchangeAction, ExchangeEvent, ExchangePhase};
use h3_client::message::Request;
use h3_client::stream::{Stream, StreamOp, StreamState};

fn fresh_stream() -> Stream {
    let mut connection = Connection::new();
    connection.handshake_completed().unwrap();
    connection.open_stream().unwrap()
}

fn post() -> Request {
    Request::new(
        String::from("POST"),
        String::from("https://127.0.0.1/getAddress"),
        vec![(String::from("Content_Type"), String::from("application/json"))],
        Some(b"{\"address\":\"127.0.0.1\"}".to_vec()),
    )
}

fn get() -> Request {
    Request::new(String::from("GET"), String::from("https://127.0.0.1/"), Vec::new(), None)
}

fn headers(status: u16) -> ExchangeEvent {
    ExchangeEvent::Headers {
        status,
        headers: vec![(String::from("content-type"), String::from("application/json"))],
    }
}

fn awaiting_headers() -> Exchange {
    let mut exchange = Exchange::start(post(), fresh_stream());
    exchange.on_event(ExchangeEvent::Sent).unwrap();
    exchange.on_event(ExchangeEvent::Sent).unwrap();
    exchange.on_event(ExchangeEvent::Sent).unwrap();
    exchange
}

fn receiving_body() -> Exchange {
    let mut exchange = awaiting_headers();
    exchange.on_event(headers(200)).unwrap();
    exchange
}

#[test]
fn a_started_exchange_is_to_send_headers() {
    let exchange = Exchange::start(post(), fresh_stream());
    assert_eq!(exchange.phase(), ExchangePhase::SendingHeaders);
    assert_eq!(exchange.next_action(), ExchangeAction::SendHeaders);
    assert_eq!(exchange.error(), None);
    assert!(!exchange.is_terminal());
    assert_eq!(exchange.request().method(), "POST");
    assert_eq!(exchange.stream().state(), StreamState::Open);
}

#[test]
fn the_steps_come_in_order_with_a_body() {
    let mut exchange = Exchange::start(post(), fresh_stream());
    assert_eq!(exchange.on_event(ExchangeEvent::Sent), Ok(ExchangeAction::SendBody));
    assert_eq!(exchange.phase(), ExchangePhase::SendingBody);
    assert!(exchange.stream().headers_sent());
    assert_eq!(exchange.on_event(ExchangeEvent::Sent), Ok(ExchangeAction::Finish));
    assert_eq!(exchange.phase(), ExchangePhase::Finishing);
    assert_eq!(exchange.on_event(ExchangeEvent::Sent), Ok(ExchangeAction::RecvHeaders));
    assert_eq!(exchange.phase(), ExchangePhase::AwaitingHeaders);
    assert_eq!(exchange.stream().state(), StreamState::HalfClosedLocal);
    assert_eq!(exchange.on_event(headers(200)), Ok(ExchangeAction::RecvChunk));
    assert_eq!(exchange.phase(), ExchangePhase::ReceivingBody);
    assert!(exchange.stream().headers_received());
    assert_eq!(exchange.on_event(ExchangeEvent::Chunk(b"{\"ok\":".to_vec())), Ok(ExchangeAction::RecvChunk));
    assert_eq!(exchange.on_event(ExchangeEvent::Chunk(b"true}".to_vec())), Ok(ExchangeAction::RecvChunk));
    assert_eq!(exchange.on_event(ExchangeEvent::EndOfBody), Ok(ExchangeAction::Done));
    assert_eq!(exchange.phase(), ExchangePhase::Completed);
    assert!(exchange.is_terminal());
    let (stream, result) = exchange.finish();
    assert_eq!(stream.state(), StreamState::Closed);
    let response = result.unwrap();
    assert_eq!(response.status(), 200);
    assert_eq!(response.chunk_count(), 2);
    assert_eq!(response.body(), b"{\"ok\":true}".to_vec());
    assert_eq!(response.headers().len(), 1);
}

#[test]
fn without_a_body_the_send_side_is_finished_right_after_the_headers() {
    let mut exchange = Exchange::start(get(), fresh_stream());
    assert_eq!(exchange.on_event(ExchangeEvent::Sent), Ok(ExchangeAction::Finish));
    assert_eq!(exchange.phase(), ExchangePhase::Finishing);
    assert_eq!(exchange.on_event(ExchangeEvent::Sent), Ok(ExchangeAction::RecvHeaders));
}

#[test]
fn an_empty_body_gives_a_response_of_zero_chunks() {
    let mut exchange = awaiting_headers();
    assert_eq!(exchange.on_event(headers(204)), Ok(ExchangeAction::RecvChunk));
    assert_eq!(exchange.on_event(ExchangeEvent::EndOfBody), Ok(ExchangeAction::Done));
    let (stream, result) = exchange.finish();
    assert_eq!(stream.state(), StreamState::Closed);
    let response = result.unwrap();
    assert_eq!(response.status(), 204);
    assert_eq!(response.chunk_count(), 0);
    assert!(response.body().is_empty());
}

#[test]
fn an_error_status_is_still_a_response() {
    let mut exchange = awaiting_headers();
    exchange.on_event(headers(500)).unwrap();
    exchange.on_event(ExchangeEvent::Chunk(b"oops".to_vec())).unwrap();
    exchange.on_event(ExchangeEvent::EndOfBody).unwrap();
    let (_, result) = exchange.finish();
    let response = result.unwrap();
    assert_eq!(response.status(), 500);
    assert_eq!(response.body(), b"oops".to_vec());
}

#[test]
fn a_reset_right_after_the_headers_is_a_stream_io_error() {
    let mut exchange = receiving_body();
    assert_eq!(
        exchange.on_event(ExchangeEvent::Fault(StreamFault::Reset)),
        Err(ClientError::StreamIOError(StreamFault::Reset))
    );
    assert_eq!(exchange.phase(), ExchangePhase::Failed);
    assert_eq!(exchange.next_action(), ExchangeAction::Abort);
    assert_eq!(exchange.error(), Some(ClientError::StreamIOError(StreamFault::Reset)));
    assert!(exchange.is_terminal());
    assert_eq!(exchange.stream().state(), StreamState::Closed);
    let (stream, result) = exchange.finish();
    assert_eq!(stream.state(), StreamState::Closed);
    assert_eq!(result.err(), Some(ClientError::StreamIOError(StreamFault::Reset)));
}

#[test]
fn a_reset_between_chunks_is_a_stream_io_error() {
    let mut exchange = receiving_body();
    exchange.on_event(ExchangeEvent::Chunk(vec![1, 2])).unwrap();
    assert_eq!(
        exchange.on_event(ExchangeEvent::Fault(StreamFault::ConnectionClosed)),
        Err(ClientError::StreamIOError(StreamFault::ConnectionClosed))
    );
    let (_, result) = exchange.finish();
    assert_eq!(result.err(), Some(ClientError::StreamIOError(StreamFault::ConnectionClosed)));
}

#[test]
fn a_reset_before_the_headers_is_a_response_error() {
    let mut exchange = awaiting_headers();
    assert_eq!(
        exchange.on_event(ExchangeEvent::Fault(StreamFault::Reset)),
        Err(ClientError::ResponseError(StreamFault::Reset))
    );
    assert_eq!(exchange.phase(), ExchangePhase::Failed);
    let (stream, result) = exchange.finish();
    assert_eq!(stream.state(), StreamState::Closed);
    assert_eq!(result.err(), Some(ClientError::ResponseError(StreamFault::Reset)));
}

#[test]
fn a_closed_connection_while_sending_is_a_response_error() {
    let mut exchange = Exchange::start(post(), fresh_stream());
    exchange.on_event(ExchangeEvent::Sent).unwrap();
    assert_eq!(
        exchange.on_event(ExchangeEvent::Fault(StreamFault::ConnectionClosed)),
        Err(ClientError::ResponseError(StreamFault::ConnectionClosed))
    );
    assert_eq!(exchange.stream().state(), StreamState::Closed);
}

#[test]
fn a_chunk_before_the_headers_is_an_ordering_violation_in_every_phase() {
    for sent in 0..4 {
        let mut exchange = Exchange::start(post(), fresh_stream());
        for _ in 0..sent {
            exchange.on_event(ExchangeEvent::Sent).unwrap();
        }
        assert_eq!(
            exchange.on_event(ExchangeEvent::Chunk(b"early".to_vec())),
            Err(ClientError::OrderingViolation)
        );
        assert_eq!(exchange.phase(), ExchangePhase::Failed);
        assert_eq!(exchange.error(), Some(ClientError::OrderingViolation));
        let (stream, result) = exchange.finish();
        assert_eq!(stream.state(), StreamState::Closed);
        assert_eq!(result.err(), Some(ClientError::OrderingViolation));
    }
}

#[test]
fn the_end_of_the_body_before_the_headers_is_an_ordering_violation() {
    for sent in 0..4 {
        let mut exchange = Exchange::start(post(), fresh_stream());
        for _ in 0..sent {
            exchange.on_event(ExchangeEvent::Sent).unwrap();
        }
        assert_eq!(exchange.on_event(ExchangeEvent::EndOfBody), Err(ClientError::OrderingViolation));
        assert_eq!(exchange.phase(), ExchangePhase::Failed);
    }
}

#[test]
fn headers_while_sending_are_an_ordering_violation() {
    let mut exchange = Exchange::start(post(), fresh_stream());
    assert_eq!(exchange.on_event(headers(200)), Err(ClientError::OrderingViolation));
    assert_eq!(exchange.phase(), ExchangePhase::Failed);
}

#[test]
fn headers_arrive_once() {
    let mut exchange = receiving_body();
    assert_eq!(exchange.on_event(headers(200)), Err(ClientError::OrderingViolation));
    assert_eq!(exchange.phase(), ExchangePhase::Failed);
}

#[test]
fn a_send_report_while_receiving_is_an_ordering_violation() {
    let mut exchange = awaiting_headers();
    assert_eq!(exchange.on_event(ExchangeEvent::Sent), Err(ClientError::OrderingViolation));
    assert_eq!(exchange.phase(), ExchangePhase::Failed);
}

#[test]
fn a_finished_exchange_takes_no_further_event() {
    let mut exchange = receiving_body();
    exchange.on_event(ExchangeEvent::EndOfBody).unwrap();
    assert_eq!(exchange.on_event(ExchangeEvent::Chunk(vec![9])), Err(ClientError::OrderingViolation));
    assert_eq!(
        exchange.on_event(ExchangeEvent::Fault(StreamFault::Reset)),
        Err(ClientError::OrderingViolation)
    );
    assert_eq!(exchange.phase(), ExchangePhase::Completed);
    assert_eq!(exchange.error(), None);
    let (_, result) = exchange.finish();
    assert_eq!(result.unwrap().chunk_count(), 0);
}

#[test]
fn a_failed_exchange_keeps_its_first_error() {
    let mut exchange = awaiting_headers();
    let _ = exchange.on_event(ExchangeEvent::Fault(StreamFault::Reset));
    assert_eq!(
        exchange.on_event(ExchangeEvent::Fault(StreamFault::ConnectionClosed)),
        Err(ClientError::OrderingViolation)
    );
    assert_eq!(exchange.error(), Some(ClientError::ResponseError(StreamFault::Reset)));
}

#[test]
fn an_exchange_given_up_half_way_is_cancelled_and_its_stream_reset() {
    let mut exchange = Exchange::start(post(), fresh_stream());
    exchange.on_event(ExchangeEvent::Sent).unwrap();
    let (stream, result) = exchange.finish();
    assert_eq!(stream.state(), StreamState::Closed);
    assert_eq!(result.err(), Some(ClientError::Cancelled));
}

#[test]
fn a_stream_that_is_not_fresh_fails_the_first_step() {
    let mut stream = fresh_stream();
    stream.apply(StreamOp::SendHeaders).unwrap();
    let mut exchange = Exchange::start(get(), stream);
    assert_eq!(exchange.on_event(ExchangeEvent::Sent), Err(ClientError::OrderingViolation));
    assert_eq!(exchange.phase(), ExchangePhase::Failed);
}
