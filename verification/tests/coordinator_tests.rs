use h3_client::connection::{CloseCause, Connection, ConnectionState};
use h3_client::coordinator::{
    Coordinator, CoordinatorAction, CoordinatorEvent, CoordinatorPhase, DriverStatus,
};
use h3_client::error::{ClientError, StreamFault};
use h3_client::exchange::{Exchange, ExchangeAction, ExchangeEvent};
use h3_client::message::Request;
use h3_client::session::{Session, SessionState};

fn coordinator() -> Coordinator {
    let mut connection = Connection::new();
    connection.handshake_completed().unwrap();
    let mut session = Session::new(connection);
    session.setup_completed().unwrap();
    Coordinator::new(session)
}

fn post() -> Request {
    Request::new(
        String::from("POST"),
        String::from("https://127.0.0.1/getAddress"),
        vec![(String::from("Content_Type"), String::from("application/json"))],
        Some(b"{\"address\":\"127.0.0.1\"}".to_vec()),
    )
}

// Plays the peer: answers every operation the exchange asks for from a script.
fn serve(exchange: &mut Exchange, status: u16, chunks: &[&[u8]], reset_after: Option<usize>) -> Vec<Vec<u8>> {
    let mut sent = Vec::new();
    let mut served = 0;
    loop {
        let event = match exchange.next_action() {
            ExchangeAction::SendHeaders => ExchangeEvent::Sent,
            ExchangeAction::SendBody => {
                sent.push(exchange.request().body().unwrap().clone());
                ExchangeEvent::Sent
            }
            ExchangeAction::Finish => ExchangeEvent::Sent,
            ExchangeAction::RecvHeaders => ExchangeEvent::Headers { status, headers: Vec::new() },
            ExchangeAction::RecvChunk => {
                if reset_after == Some(served) {
                    ExchangeEvent::Fault(StreamFault::Reset)
                } else if served < chunks.len() {
                    served += 1;
                    ExchangeEvent::Chunk(chunks[served - 1].to_vec())
                } else {
                    ExchangeEvent::EndOfBody
                }
            }
            ExchangeAction::Done | ExchangeAction::Abort => return sent,
        };
        let _ = exchange.on_event(event);
    }
}

#[test]
fn a_successful_run_ends_after_graceful_shutdown() {
    let mut run = coordinator();
    let mut exchange = run.start_exchange(post()).unwrap();
    assert_eq!(run.outstanding(), 1);
    assert_eq!(exchange.request().uri(), "https://127.0.0.1/getAddress");
    let sent = serve(&mut exchange, 200, &[b"{\"ok\":true}"], None);
    assert_eq!(sent, vec![b"{\"address\":\"127.0.0.1\"}".to_vec()]);
    let (action, result) = run.exchange_finished(exchange);
    assert_eq!(action, CoordinatorAction::ReleaseSenders);
    let response = result.unwrap();
    assert_eq!(response.status(), 200);
    assert_eq!(response.body(), b"{\"ok\":true}".to_vec());
    assert_eq!(run.phase(), CoordinatorPhase::Draining);
    assert_eq!(run.session().senders(), 0);
    assert_eq!(run.session().state(), SessionState::Draining);
    assert_eq!(run.outcome(), None);
    assert_eq!(run.on_event(CoordinatorEvent::DriverFinished), CoordinatorAction::WaitIdle);
    assert_eq!(run.phase(), CoordinatorPhase::WaitingIdle);
    assert_eq!(run.driver(), DriverStatus::Finished);
    assert_eq!(run.session().state(), SessionState::Closed);
    assert_eq!(run.session().connection().state(), ConnectionState::Closing);
    assert_eq!(run.outcome(), None);
    assert_eq!(run.on_event(CoordinatorEvent::EndpointIdle), CoordinatorAction::Finish);
    assert_eq!(run.phase(), CoordinatorPhase::Complete);
    assert_eq!(run.outcome(), Some(Ok(())));
    assert_eq!(run.failure(), None);
    let connection = run.into_session().into_connection();
    assert_eq!(connection.state(), ConnectionState::Closed);
    assert_eq!(connection.close_cause(), Some(CloseCause::Local));
    assert_eq!(connection.in_flight(), 0);
    assert_eq!(connection.opened(), 1);
}

#[test]
fn the_senders_stay_until_the_last_exchange_is_back() {
    let mut run = coordinator();
    let mut first = run.start_exchange(post()).unwrap();
    let mut second = run.start_exchange(post()).unwrap();
    assert_eq!(run.outstanding(), 2);
    serve(&mut first, 200, &[b"a"], None);
    let (action, _) = run.exchange_finished(first);
    assert_eq!(action, CoordinatorAction::Continue);
    assert_eq!(run.phase(), CoordinatorPhase::Running);
    assert_eq!(run.session().senders(), 1);
    assert_eq!(run.outstanding(), 1);
    serve(&mut second, 200, &[b"b"], None);
    let (action, _) = run.exchange_finished(second);
    assert_eq!(action, CoordinatorAction::ReleaseSenders);
    assert_eq!(run.session().senders(), 0);
    assert_eq!(run.outstanding(), 0);
}

#[test]
fn a_failed_stream_leaves_its_siblings_alone() {
    let mut run = coordinator();
    let mut failing = run.start_exchange(post()).unwrap();
    let mut sibling = run.start_exchange(post()).unwrap();
    serve(&mut failing, 200, &[], Some(0));
    let (action, result) = run.exchange_finished(failing);
    assert_eq!(result.err(), Some(ClientError::StreamIOError(StreamFault::Reset)));
    assert_eq!(action, CoordinatorAction::Continue);
    assert_eq!(run.phase(), CoordinatorPhase::Running);
    assert_eq!(run.outstanding(), 1);
    serve(&mut sibling, 200, &[b"fine"], None);
    let (action, result) = run.exchange_finished(sibling);
    assert_eq!(result.unwrap().body(), b"fine".to_vec());
    assert_eq!(action, CoordinatorAction::ReleaseSenders);
    run.on_event(CoordinatorEvent::DriverFinished);
    run.on_event(CoordinatorEvent::EndpointIdle);
    assert_eq!(run.outcome(), Some(Err(ClientError::StreamIOError(StreamFault::Reset))));
}

#[test]
fn a_connection_level_failure_cancels_the_siblings() {
    let mut run = coordinator();
    let mut failing = run.start_exchange(post()).unwrap();
    let sibling = run.start_exchange(post()).unwrap();
    let _ = failing.on_event(ExchangeEvent::Fault(StreamFault::ConnectionClosed));
    let (action, result) = run.exchange_finished(failing);
    assert_eq!(result.err(), Some(ClientError::ResponseError(StreamFault::ConnectionClosed)));
    assert_eq!(action, CoordinatorAction::CancelExchanges);
    assert_eq!(run.phase(), CoordinatorPhase::Cancelling);
    assert_eq!(run.start_exchange(post()).err(), Some(ClientError::ConnectionNotReady));
    let (action, result) = run.exchange_finished(sibling);
    assert_eq!(result.err(), Some(ClientError::Cancelled));
    assert_eq!(action, CoordinatorAction::ReleaseSenders);
    assert_eq!(run.phase(), CoordinatorPhase::Draining);
    assert_eq!(run.failure(), Some(ClientError::ResponseError(StreamFault::ConnectionClosed)));
}

#[test]
fn a_driver_failure_cancels_every_outstanding_exchange() {
    let mut run = coordinator();
    let first = run.start_exchange(post()).unwrap();
    let second = run.start_exchange(post()).unwrap();
    assert_eq!(run.on_event(CoordinatorEvent::DriverFailed), CoordinatorAction::CancelExchanges);
    assert_eq!(run.phase(), CoordinatorPhase::Cancelling);
    assert_eq!(run.driver(), DriverStatus::Failed);
    assert_eq!(run.failure(), Some(ClientError::ConnectionLost));
    assert_eq!(run.outstanding(), 2);
    assert_eq!(run.session().connection().state(), ConnectionState::Closing);
    assert_eq!(run.session().connection().close_cause(), Some(CloseCause::Peer));
    assert_eq!(run.start_exchange(post()).err(), Some(ClientError::ConnectionNotReady));
    let (action, result) = run.exchange_finished(first);
    assert_eq!(action, CoordinatorAction::Continue);
    assert_eq!(result.err(), Some(ClientError::Cancelled));
    assert_eq!(run.on_event(CoordinatorEvent::EndpointIdle), CoordinatorAction::Continue);
    assert_eq!(run.phase(), CoordinatorPhase::Cancelling);
    let (action, _) = run.exchange_finished(second);
    assert_eq!(action, CoordinatorAction::WaitIdle);
    assert_eq!(run.phase(), CoordinatorPhase::WaitingIdle);
    assert_eq!(run.outcome(), None);
    assert_eq!(run.on_event(CoordinatorEvent::EndpointIdle), CoordinatorAction::Finish);
    assert_eq!(run.outcome(), Some(Err(ClientError::ConnectionLost)));
    assert_eq!(run.session().connection().state(), ConnectionState::Closed);
}

#[test]
fn a_driver_failure_while_draining_goes_on_to_the_endpoint() {
    let mut run = coordinator();
    let mut exchange = run.start_exchange(post()).unwrap();
    serve(&mut exchange, 200, &[], None);
    let (action, _) = run.exchange_finished(exchange);
    assert_eq!(action, CoordinatorAction::ReleaseSenders);
    assert_eq!(run.on_event(CoordinatorEvent::DriverFailed), CoordinatorAction::WaitIdle);
    assert_eq!(run.phase(), CoordinatorPhase::WaitingIdle);
    assert_eq!(run.on_event(CoordinatorEvent::EndpointIdle), CoordinatorAction::Finish);
    assert_eq!(run.outcome(), Some(Err(ClientError::ConnectionLost)));
}

#[test]
fn a_driver_that_ends_early_has_the_exchanges_cancelled() {
    let mut run = coordinator();
    let exchange = run.start_exchange(post()).unwrap();
    assert_eq!(run.on_event(CoordinatorEvent::DriverFinished), CoordinatorAction::CancelExchanges);
    assert_eq!(run.phase(), CoordinatorPhase::Cancelling);
    assert_eq!(run.failure(), None);
    assert_eq!(run.session().connection().state(), ConnectionState::Closing);
    assert_eq!(run.session().connection().close_cause(), Some(CloseCause::Peer));
    let (action, result) = run.exchange_finished(exchange);
    assert_eq!(action, CoordinatorAction::WaitIdle);
    assert_eq!(result.err(), Some(ClientError::Cancelled));
    assert_eq!(run.on_event(CoordinatorEvent::EndpointIdle), CoordinatorAction::Finish);
    assert_eq!(run.outcome(), Some(Err(ClientError::Cancelled)));
    assert_eq!(run.session().connection().state(), ConnectionState::Closed);
}

#[test]
fn a_driver_that_ends_with_nothing_outstanding_goes_on_to_the_endpoint() {
    let mut run = coordinator();
    assert_eq!(run.on_event(CoordinatorEvent::DriverFinished), CoordinatorAction::WaitIdle);
    assert_eq!(run.phase(), CoordinatorPhase::WaitingIdle);
    assert_eq!(run.session().senders(), 0);
    assert_eq!(run.session().connection().state(), ConnectionState::Closing);
    assert_eq!(run.on_event(CoordinatorEvent::EndpointIdle), CoordinatorAction::Finish);
    assert_eq!(run.outcome(), Some(Ok(())));
    assert_eq!(run.session().state(), SessionState::Closed);
    assert_eq!(run.session().connection().state(), ConnectionState::Closed);
}

#[test]
fn a_cancelled_run_still_tears_down() {
    let mut run = coordinator();
    let exchange = run.start_exchange(post()).unwrap();
    assert_eq!(run.on_event(CoordinatorEvent::Cancel), CoordinatorAction::CancelExchanges);
    assert_eq!(run.phase(), CoordinatorPhase::Cancelling);
    assert_eq!(run.outcome(), None);
    let (action, result) = run.exchange_finished(exchange);
    assert_eq!(result.err(), Some(ClientError::Cancelled));
    assert_eq!(action, CoordinatorAction::ReleaseSenders);
    assert_eq!(run.phase(), CoordinatorPhase::Draining);
    assert_eq!(run.on_event(CoordinatorEvent::Cancel), CoordinatorAction::Continue);
    assert_eq!(run.on_event(CoordinatorEvent::DriverFinished), CoordinatorAction::WaitIdle);
    assert_eq!(run.on_event(CoordinatorEvent::Cancel), CoordinatorAction::Continue);
    assert_eq!(run.phase(), CoordinatorPhase::WaitingIdle);
    assert_eq!(run.on_event(CoordinatorEvent::EndpointIdle), CoordinatorAction::Finish);
    assert_eq!(run.outcome(), Some(Err(ClientError::Cancelled)));
    assert_eq!(run.session().connection().state(), ConnectionState::Closed);
}

#[test]
fn cancelling_with_nothing_outstanding_winds_down_at_once() {
    let mut run = coordinator();
    assert_eq!(run.on_event(CoordinatorEvent::Cancel), CoordinatorAction::ReleaseSenders);
    assert_eq!(run.phase(), CoordinatorPhase::Draining);
    assert_eq!(run.session().senders(), 0);
}

#[test]
fn cancelling_a_complete_run_changes_nothing() {
    let mut run = coordinator();
    let mut exchange = run.start_exchange(post()).unwrap();
    serve(&mut exchange, 200, &[], None);
    run.exchange_finished(exchange);
    run.on_event(CoordinatorEvent::DriverFinished);
    run.on_event(CoordinatorEvent::EndpointIdle);
    assert_eq!(run.on_event(CoordinatorEvent::Cancel), CoordinatorAction::Continue);
    assert_eq!(run.outcome(), Some(Ok(())));
}

#[test]
fn the_endpoint_is_not_heard_before_its_turn() {
    let mut run = coordinator();
    assert_eq!(run.on_event(CoordinatorEvent::EndpointIdle), CoordinatorAction::Continue);
    assert_eq!(run.phase(), CoordinatorPhase::Running);
    let mut exchange = run.start_exchange(post()).unwrap();
    serve(&mut exchange, 200, &[], None);
    run.exchange_finished(exchange);
    assert_eq!(run.on_event(CoordinatorEvent::EndpointIdle), CoordinatorAction::Continue);
    assert_eq!(run.phase(), CoordinatorPhase::Draining);
    assert_eq!(run.outcome(), None);
}

#[test]
fn the_driver_ends_once() {
    let mut run = coordinator();
    let mut exchange = run.start_exchange(post()).unwrap();
    serve(&mut exchange, 200, &[], None);
    run.exchange_finished(exchange);
    assert_eq!(run.on_event(CoordinatorEvent::DriverFinished), CoordinatorAction::WaitIdle);
    assert_eq!(run.on_event(CoordinatorEvent::DriverFailed), CoordinatorAction::Continue);
    assert_eq!(run.driver(), DriverStatus::Finished);
    assert_eq!(run.failure(), None);
}

#[test]
fn no_exchange_starts_on_a_session_that_is_not_active() {
    let mut connection = Connection::new();
    connection.handshake_completed().unwrap();
    let mut run = Coordinator::new(Session::new(connection));
    assert_eq!(run.start_exchange(post()).err(), Some(ClientError::ConnectionNotReady));
    assert_eq!(run.outstanding(), 0);
    assert_eq!(run.phase(), CoordinatorPhase::Running);
}

#[test]
fn no_exchange_starts_once_the_run_winds_down() {
    let mut run = coordinator();
    let mut exchange = run.start_exchange(post()).unwrap();
    serve(&mut exchange, 200, &[], None);
    run.exchange_finished(exchange);
    assert_eq!(run.start_exchange(post()).err(), Some(ClientError::ConnectionNotReady));
}

#[test]
fn an_exchange_that_is_not_awaited_only_gives_its_stream_back() {
    let mut run = coordinator();
    let mut other = coordinator();
    let stray = other.start_exchange(post()).unwrap();
    let (action, result) = run.exchange_finished(stray);
    assert_eq!(action, CoordinatorAction::Continue);
    assert_eq!(result.err(), Some(ClientError::Cancelled));
    assert_eq!(run.phase(), CoordinatorPhase::Running);
    assert_eq!(run.outstanding(), 0);
    assert_eq!(run.failure(), None);
}
