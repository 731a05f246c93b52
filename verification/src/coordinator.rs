//! The lifecycle coordinator: it supervises the session's driver and the
//! exchanges that run beside it, and takes the run down in order.
//!
//! The coordinator decides; the caller runs the tasks. While exchanges are
//! outstanding the driver must keep running. When the last exchange has
//! finished the senders are released so that the session can drain; when the
//! driver has ended the endpoint is waited on until the connection is closed;
//! only then is the run complete. A driver that fails on its own, a
//! connection-level failure of one exchange, or a cancellation by the caller
//! cancels every outstanding exchange, and the same teardown follows. A
//! failure of one stream leaves the other exchanges alone.

use vstd::prelude::*;
use crate::connection::{CloseCause, ConnectionState};
use crate::error::ClientError;
use crate::exchange::{Exchange, ExchangeView};
use crate::message::{Request, Response, ResponseView};
use crate::session::{Session, SessionOp, SessionState, SessionView};
use crate::stream::StreamView;

verus! {

/// Where a run stands.
#[derive(Clone, Copy, Debug, PartialEq, Eq, Structural)]
pub enum CoordinatorPhase {
    /// Exchanges and the driver run.
    Running,
    /// Outstanding exchanges are being cancelled.
    Cancelling,
    /// The senders are released; the driver runs until the session has drained.
    Draining,
    /// The driver has ended; the endpoint is waited on.
    WaitingIdle,
    /// The run is over.
    Complete,
}

/// What is known of the session's driver.
#[derive(Clone, Copy, Debug, PartialEq, Eq, Structural)]
pub enum DriverStatus {
    Running,
    Finished,
    Failed,
}

/// What the caller reports, besides finished exchanges.
#[derive(Clone, Copy, Debug, PartialEq, Eq, Structural)]
pub enum CoordinatorEvent {
    /// The driver ended without error: the connection was closed in good
    /// order, by this side once the session had drained, else by the peer.
    DriverFinished,
    /// The driver ended with a connection-level error.
    DriverFailed,
    /// The caller gives the run up.
    Cancel,
    /// The endpoint has no connection left open.
    EndpointIdle,
}

/// What the caller is to do next.
#[derive(Clone, Copy, Debug, PartialEq, Eq, Structural)]
pub enum CoordinatorAction {
    /// Nothing new: keep the tasks running.
    Continue,
    /// Cancel every outstanding exchange and hand each one back.
    CancelExchanges,
    /// Drop every sender handle and keep driving until the driver ends.
    ReleaseSenders,
    /// Drop whatever handles remain and wait until the endpoint is idle.
    WaitIdle,
    /// The run is complete; read its outcome.
    Finish,
}

/// The error in an exchange's outcome, if it is one.
pub open spec fn error_of(outcome: Result<ResponseView, ClientError>) -> Option<ClientError> {
    match outcome {
        Ok(_) => None,
        Err(e) => Some(e),
    }
}

/// The mathematical model of a coordinator.
pub struct CoordinatorView {
    pub phase: CoordinatorPhase,
    pub driver: DriverStatus,
    pub session: SessionView,
    /// Exchanges started and not yet handed back.
    pub outstanding: nat,
    /// The first failure seen; it becomes the outcome of the run.
    pub failure: Option<ClientError>,
}

impl CoordinatorView {
    /// A coordinator that has just taken charge of `session`.
    pub open spec fn running(session: SessionView) -> CoordinatorView {
        CoordinatorView {
            phase: CoordinatorPhase::Running,
            driver: DriverStatus::Running,
            session,
            outstanding: 0,
            failure: None,
        }
    }

    /// How far along its life the value is; it never decreases.
    pub open spec fn rank(self) -> nat {
        match self.phase {
            CoordinatorPhase::Running => 0,
            CoordinatorPhase::Cancelling => 1,
            CoordinatorPhase::Draining => 2,
            CoordinatorPhase::WaitingIdle => 3,
            CoordinatorPhase::Complete => 4,
        }
    }

    /// Whether another exchange can start.
    pub open spec fn can_start(self) -> bool {
        &&& self.phase == CoordinatorPhase::Running
        &&& self.outstanding < u64::MAX
        &&& self.session.permits(SessionOp::OpenStream)
    }

    /// The coordinator after an exchange started.
    pub open spec fn started(self) -> CoordinatorView {
        CoordinatorView {
            session: self.session.step(SessionOp::OpenStream),
            outstanding: self.outstanding + 1,
            ..self
        }
    }

    /// The failure on record once `e` was seen: the first one stays.
    pub open spec fn noting(self, e: ClientError) -> Option<ClientError> {
        match self.failure {
            Some(first) => Some(first),
            None => Some(e),
        }
    }

    /// The coordinator once nothing is outstanding: the senders are released,
    /// and the run drains if the driver still runs, or else waits on the
    /// endpoint.
    pub open spec fn wound_down(self) -> CoordinatorView {
        CoordinatorView {
            phase: if self.driver == DriverStatus::Running {
                CoordinatorPhase::Draining
            } else {
                CoordinatorPhase::WaitingIdle
            },
            session: self.session.step(SessionOp::ReleaseSenders),
            ..self
        }
    }

    /// What the caller is told when the run winds down.
    pub open spec fn wind_down_action(self) -> CoordinatorAction {
        if self.driver == DriverStatus::Running {
            CoordinatorAction::ReleaseSenders
        } else {
            CoordinatorAction::WaitIdle
        }
    }

    /// Whether a finished exchange is one this coordinator still waits for.
    pub open spec fn awaits_exchange(self) -> bool {
        self.outstanding > 0 && (self.phase == CoordinatorPhase::Running || self.phase
            == CoordinatorPhase::Cancelling)
    }

    /// Whether `error` condemns the sibling exchanges too.
    pub open spec fn condemns_siblings(self, error: Option<ClientError>) -> bool {
        self.phase == CoordinatorPhase::Running && error is Some
            && error->Some_0.is_connection_level()
    }

    /// The coordinator after an exchange was handed back with `error` (`None`
    /// when it yielded a response). Its stream is released in any case.
    pub open spec fn finished(self, error: Option<ClientError>) -> CoordinatorView {
        let released = CoordinatorView {
            session: self.session.step(SessionOp::ReleaseStream),
            ..self
        };
        if !self.awaits_exchange() {
            released
        } else {
            let noted = CoordinatorView {
                outstanding: (self.outstanding - 1) as nat,
                failure: match error {
                    Some(e) => self.noting(e),
                    None => self.failure,
                },
                ..released
            };
            if noted.outstanding == 0 {
                noted.wound_down()
            } else if self.condemns_siblings(error) {
                CoordinatorView { phase: CoordinatorPhase::Cancelling, ..noted }
            } else {
                noted
            }
        }
    }

    /// What the caller is told when an exchange was handed back.
    pub open spec fn finished_action(self, error: Option<ClientError>) -> CoordinatorAction {
        if !self.awaits_exchange() {
            CoordinatorAction::Continue
        } else if self.outstanding == 1 {
            self.wind_down_action()
        } else if self.condemns_siblings(error) {
            CoordinatorAction::CancelExchanges
        } else {
            CoordinatorAction::Continue
        }
    }

    /// The coordinator after the driver ended, leaving `ended` as its record
    /// of driver, session and failure.
    pub open spec fn after_driver_end(self, ended: CoordinatorView) -> CoordinatorView {
        match self.phase {
            CoordinatorPhase::Running => if self.outstanding > 0 {
                CoordinatorView { phase: CoordinatorPhase::Cancelling, ..ended }
            } else {
                ended.wound_down()
            },
            CoordinatorPhase::Draining => CoordinatorView {
                phase: CoordinatorPhase::WaitingIdle,
                ..ended
            },
            _ => ended,
        }
    }

    /// The coordinator after `event`. An event that has no meaning in the
    /// current phase changes nothing.
    pub open spec fn step(self, event: CoordinatorEvent) -> CoordinatorView {
        match event {
            CoordinatorEvent::DriverFinished => if self.driver != DriverStatus::Running {
                self
            } else {
                self.after_driver_end(
                    CoordinatorView {
                        driver: DriverStatus::Finished,
                        session: if self.phase == CoordinatorPhase::Draining {
                            self.session.step(SessionOp::ObserveIdle)
                        } else {
                            self.session.step(SessionOp::PeerClosed(CloseCause::Peer))
                        },
                        ..self
                    },
                )
            },
            CoordinatorEvent::DriverFailed => if self.driver != DriverStatus::Running {
                self
            } else {
                self.after_driver_end(
                    CoordinatorView {
                        driver: DriverStatus::Failed,
                        session: self.session.step(SessionOp::PeerClosed(CloseCause::Peer)),
                        failure: self.noting(ClientError::ConnectionLost),
                        ..self
                    },
                )
            },
            CoordinatorEvent::Cancel => {
                let noted = CoordinatorView { failure: self.noting(ClientError::Cancelled), ..self };
                match self.phase {
                    CoordinatorPhase::Running => if self.outstanding > 0 {
                        CoordinatorView { phase: CoordinatorPhase::Cancelling, ..noted }
                    } else {
                        noted.wound_down()
                    },
                    CoordinatorPhase::Complete => self,
                    _ => noted,
                }
            },
            CoordinatorEvent::EndpointIdle => if self.phase == CoordinatorPhase::WaitingIdle {
                CoordinatorView {
                    phase: CoordinatorPhase::Complete,
                    session: self.session.step(SessionOp::FinishClose),
                    ..self
                }
            } else {
                self
            },
        }
    }

    /// What the caller is told after `event`.
    pub open spec fn action(self, event: CoordinatorEvent) -> CoordinatorAction {
        match event {
            CoordinatorEvent::DriverFinished | CoordinatorEvent::DriverFailed => if self.driver
                != DriverStatus::Running {
                CoordinatorAction::Continue
            } else {
                match self.phase {
                    CoordinatorPhase::Running => if self.outstanding > 0 {
                        CoordinatorAction::CancelExchanges
                    } else {
                        CoordinatorAction::WaitIdle
                    },
                    CoordinatorPhase::Draining => CoordinatorAction::WaitIdle,
                    _ => CoordinatorAction::Continue,
                }
            },
            CoordinatorEvent::Cancel => match self.phase {
                CoordinatorPhase::Running => if self.outstanding > 0 {
                    CoordinatorAction::CancelExchanges
                } else {
                    self.wind_down_action()
                },
                _ => CoordinatorAction::Continue,
            },
            CoordinatorEvent::EndpointIdle => if self.phase == CoordinatorPhase::WaitingIdle {
                CoordinatorAction::Finish
            } else {
                CoordinatorAction::Continue
            },
        }
    }

    /// The outcome of the run, once it is complete: the first failure seen, or
    /// success.
    pub open spec fn outcome(self) -> Option<Result<(), ClientError>> {
        if self.phase == CoordinatorPhase::Complete {
            Some(
                match self.failure {
                    Some(e) => Err(e),
                    None => Ok(()),
                },
            )
        } else {
            None
        }
    }

    /// What holds throughout a run that began on an active session with no
    /// stream in flight: every stream in flight belongs to an outstanding
    /// exchange, and the connection is established while the run goes on,
    /// closing while the endpoint is waited on, and closed when the run is
    /// complete.
    pub open spec fn orderly(self) -> bool {
        &&& self.wf()
        &&& self.session.connection.in_flight == self.outstanding
        &&& match self.phase {
            CoordinatorPhase::Running => self.session.state == SessionState::Active,
            CoordinatorPhase::Cancelling => if self.driver == DriverStatus::Running {
                self.session.state == SessionState::Active
            } else {
                self.session.connection.state == ConnectionState::Closing
            },
            CoordinatorPhase::Draining => self.session.state == SessionState::Draining
                && self.session.connection.state == ConnectionState::Established,
            CoordinatorPhase::WaitingIdle => self.session.connection.state
                == ConnectionState::Closing,
            CoordinatorPhase::Complete => self.session.connection.state
                == ConnectionState::Closed,
        }
    }

    /// What holds of every coordinator that took charge of a well-formed session.
    pub open spec fn wf(self) -> bool {
        &&& self.session.wf()
        &&& self.phase == CoordinatorPhase::Running ==> self.driver == DriverStatus::Running
        &&& self.phase == CoordinatorPhase::Cancelling ==> self.outstanding > 0
        &&& self.phase == CoordinatorPhase::Draining ==> self.driver == DriverStatus::Running
        &&& self.phase == CoordinatorPhase::WaitingIdle || self.phase == CoordinatorPhase::Complete
            ==> self.driver != DriverStatus::Running
        &&& self.rank() >= 2 ==> self.outstanding == 0 && self.session.senders == 0
    }
}

/// A coordinator as the client holds it, together with the session it
/// supervises. Its model is `CoordinatorView`.
#[derive(Debug)]
pub struct Coordinator {
    phase: CoordinatorPhase,
    driver: DriverStatus,
    session: Session,
    outstanding: u64,
    failure: Option<ClientError>,
}

impl View for Coordinator {
    type V = CoordinatorView;

    closed spec fn view(&self) -> CoordinatorView {
        CoordinatorView {
            phase: self.phase,
            driver: self.driver,
            session: self.session@,
            outstanding: self.outstanding as nat,
            failure: self.failure,
        }
    }
}

impl Coordinator {
    /// Takes charge of `session`, whose driver is taken to be running.
    pub fn new(session: Session) -> (c: Coordinator)
        ensures
            c@ == CoordinatorView::running(session@),
            session@.wf() ==> c@.wf(),
            session@.wf() && session@.state == SessionState::Active
                && session@.connection.in_flight == 0 ==> c@.orderly(),
    {
        Coordinator {
            phase: CoordinatorPhase::Running,
            driver: DriverStatus::Running,
            session,
            outstanding: 0,
            failure: None,
        }
    }

    pub fn phase(&self) -> (p: CoordinatorPhase)
        ensures
            p == self@.phase,
    {
        self.phase
    }

    pub fn driver(&self) -> (d: DriverStatus)
        ensures
            d == self@.driver,
    {
        self.driver
    }

    pub fn outstanding(&self) -> (n: u64)
        ensures
            n as nat == self@.outstanding,
    {
        self.outstanding
    }

    pub fn failure(&self) -> (e: Option<ClientError>)
        ensures
            e == self@.failure,
    {
        self.failure
    }

    pub fn session(&self) -> (s: &Session)
        ensures
            s@ == self@.session,
    {
        &self.session
    }

    /// Gives the session back.
    pub fn into_session(self) -> (s: Session)
        ensures
            s@ == self@.session,
    {
        self.session
    }

    /// The outcome of the run: nothing before it is complete; then the first
    /// failure seen, or success.
    pub fn outcome(&self) -> (o: Option<Result<(), ClientError>>)
        ensures
            o == self@.outcome(),
    {
        if self.phase == CoordinatorPhase::Complete {
            match self.failure {
                Some(e) => Some(Err(e)),
                None => Some(Ok(())),
            }
        } else {
            None
        }
    }

    fn note(&mut self, e: ClientError)
        ensures
            final(self)@ == (CoordinatorView { failure: old(self)@.noting(e), ..old(self)@ }),
    {
        if self.failure.is_none() {
            self.failure = Some(e);
        }
    }

    fn wind_down(&mut self) -> (a: CoordinatorAction)
        ensures
            final(self)@ == old(self)@.wound_down(),
            a == old(self)@.wind_down_action(),
    {
        let _ = self.session.release_senders();
        if self.driver == DriverStatus::Running {
            self.phase = CoordinatorPhase::Draining;
            CoordinatorAction::ReleaseSenders
        } else {
            self.phase = CoordinatorPhase::WaitingIdle;
            CoordinatorAction::WaitIdle
        }
    }

    fn driver_ended(&mut self, was: CoordinatorPhase, had: u64) -> (a: CoordinatorAction)
        requires
            old(self)@.phase == was,
            old(self)@.outstanding == had,
            old(self)@.driver != DriverStatus::Running,
        ensures
            final(self)@ == old(self)@.after_driver_end(old(self)@),
            a == (match was {
                CoordinatorPhase::Running => if had > 0 {
                    CoordinatorAction::CancelExchanges
                } else {
                    CoordinatorAction::WaitIdle
                },
                CoordinatorPhase::Draining => CoordinatorAction::WaitIdle,
                _ => CoordinatorAction::Continue,
            }),
    {
        match was {
            CoordinatorPhase::Running => {
                if had > 0 {
                    self.phase = CoordinatorPhase::Cancelling;
                    CoordinatorAction::CancelExchanges
                } else {
                    self.wind_down()
                }
            },
            CoordinatorPhase::Draining => {
                self.phase = CoordinatorPhase::WaitingIdle;
                CoordinatorAction::WaitIdle
            },
            _ => CoordinatorAction::Continue,
        }
    }

    /// Starts an exchange for `request` on a new stream. Fails with
    /// `ConnectionNotReady`, and changes nothing, unless the run is in its
    /// running phase and the session can open a stream.
    pub fn start_exchange(&mut self, request: Request) -> (r: Result<Exchange, ClientError>)
        ensures
            old(self)@.can_start() ==> r is Ok && final(self)@ == old(self)@.started() && r->Ok_0@
                == ExchangeView::started(
                request@,
                StreamView::fresh(old(self)@.session.connection.opened),
            ) && r->Ok_0@.wf(),
            !old(self)@.can_start() ==> r is Err && r->Err_0 == ClientError::ConnectionNotReady
                && final(self)@ == old(self)@,
            old(self)@.wf() ==> final(self)@.wf(),
            old(self)@.orderly() ==> final(self)@.orderly(),
    {
        if self.phase != CoordinatorPhase::Running || self.outstanding == u64::MAX {
            return Err(ClientError::ConnectionNotReady);
        }
        match self.session.open_stream() {
            Ok(stream) => {
                self.outstanding = self.outstanding + 1;
                Ok(Exchange::start(request, stream))
            },
            Err(e) => Err(e),
        }
    }

    /// Takes an exchange back, finished or given up, releases its stream and
    /// says what is to be done next, together with what the exchange came to.
    /// The last exchange to come back winds the run down. A connection-level
    /// failure has the others cancelled; a failure of the one stream does not.
    pub fn exchange_finished(&mut self, exchange: Exchange) -> (r: (
        CoordinatorAction,
        Result<Response, ClientError>,
    ))
        ensures
            final(self)@ == old(self)@.finished(error_of(exchange@.outcome())),
            r.0 == old(self)@.finished_action(error_of(exchange@.outcome())),
            r.1 is Ok <==> exchange@.outcome() is Ok,
            r.1 matches Ok(response) ==> exchange@.outcome() == Ok::<ResponseView, ClientError>(
                response@,
            ),
            r.1 matches Err(e) ==> exchange@.outcome() == Err::<ResponseView, ClientError>(e),
            old(self)@.wf() ==> final(self)@.wf(),
            old(self)@.orderly() ==> final(self)@.orderly(),
    {
        let (stream, result) = exchange.finish();
        self.session.release_stream(stream);
        if self.outstanding == 0 || !(self.phase == CoordinatorPhase::Running || self.phase
            == CoordinatorPhase::Cancelling) {
            return (CoordinatorAction::Continue, result);
        }
        let condemns = match &result {
            Ok(_) => false,
            Err(e) => self.phase == CoordinatorPhase::Running && e.is_connection_level(),
        };
        if let Err(e) = &result {
            self.note(*e);
        }
        self.outstanding = self.outstanding - 1;
        let action = if self.outstanding == 0 {
            self.wind_down()
        } else if condemns {
            self.phase = CoordinatorPhase::Cancelling;
            CoordinatorAction::CancelExchanges
        } else {
            CoordinatorAction::Continue
        };
        (action, result)
    }

    /// Takes in an event and says what is to be done next.
    pub fn on_event(&mut self, event: CoordinatorEvent) -> (a: CoordinatorAction)
        ensures
            final(self)@ == old(self)@.step(event),
            a == old(self)@.action(event),
            old(self)@.wf() ==> final(self)@.wf(),
            old(self)@.orderly() ==> final(self)@.orderly(),
    {
        let was = self.phase;
        let had = self.outstanding;
        match event {
            CoordinatorEvent::DriverFinished => {
                if self.driver != DriverStatus::Running {
                    return CoordinatorAction::Continue;
                }
                self.driver = DriverStatus::Finished;
                if was == CoordinatorPhase::Draining {
                    let _ = self.session.observe_idle();
                } else {
                    let _ = self.session.peer_closed(CloseCause::Peer);
                }
                self.driver_ended(was, had)
            },
            CoordinatorEvent::DriverFailed => {
                if self.driver != DriverStatus::Running {
                    return CoordinatorAction::Continue;
                }
                self.driver = DriverStatus::Failed;
                let _ = self.session.peer_closed(CloseCause::Peer);
                self.note(ClientError::ConnectionLost);
                self.driver_ended(was, had)
            },
            CoordinatorEvent::Cancel => {
                match was {
                    CoordinatorPhase::Running => {
                        self.note(ClientError::Cancelled);
                        if had > 0 {
                            self.phase = CoordinatorPhase::Cancelling;
                            CoordinatorAction::CancelExchanges
                        } else {
                            self.wind_down()
                        }
                    },
                    CoordinatorPhase::Complete => CoordinatorAction::Continue,
                    _ => {
                        self.note(ClientError::Cancelled);
                        CoordinatorAction::Continue
                    },
                }
            },
            CoordinatorEvent::EndpointIdle => {
                if was == CoordinatorPhase::WaitingIdle {
                    self.phase = CoordinatorPhase::Complete;
                    let _ = self.session.finish_close();
                    CoordinatorAction::Finish
                } else {
                    CoordinatorAction::Continue
                }
            },
        }
    }
}

/// Starting an exchange, taking one back and every event keep a coordinator
/// well-formed, and never move it to an earlier phase.
pub proof fn law_coordinator_wf(
    v: CoordinatorView,
    event: CoordinatorEvent,
    error: Option<ClientError>,
)
    requires
        v.wf(),
    ensures
        v.step(event).wf(),
        v.finished(error).wf(),
        v.can_start() ==> v.started().wf(),
        v.rank() <= v.step(event).rank(),
        v.rank() <= v.finished(error).rank(),
{
}

/// The senders are released only when no exchange is outstanding: whenever
/// the caller is told to release them, or to wait on the endpoint, nothing is
/// outstanding any more. So the driver is kept running for as long as an
/// exchange is.
pub proof fn law_release_after_last_exchange(
    v: CoordinatorView,
    event: CoordinatorEvent,
    error: Option<ClientError>,
)
    requires
        v.wf(),
    ensures
        v.action(event) == CoordinatorAction::ReleaseSenders || v.action(event)
            == CoordinatorAction::WaitIdle ==> v.step(event).outstanding == 0,
        v.finished_action(error) == CoordinatorAction::ReleaseSenders || v.finished_action(error)
            == CoordinatorAction::WaitIdle ==> v.finished(error).outstanding == 0,
        v.outstanding > 0 ==> v.step(event).session.senders == v.session.senders,
        v.outstanding > 1 ==> v.finished(error).session.senders == v.session.senders,
{
}

/// The run completes only from waiting on the endpoint, and only when the
/// endpoint reports idle: whatever went wrong before, the teardown is not
/// skipped. Handing an exchange back never completes the run.
pub proof fn law_teardown_before_complete(
    v: CoordinatorView,
    event: CoordinatorEvent,
    error: Option<ClientError>,
)
    requires
        v.phase != CoordinatorPhase::Complete,
    ensures
        v.finished(error).phase != CoordinatorPhase::Complete,
        v.step(event).phase == CoordinatorPhase::Complete ==> v.phase
            == CoordinatorPhase::WaitingIdle && event == CoordinatorEvent::EndpointIdle,
        v.action(event) == CoordinatorAction::Finish <==> v.step(event).phase
            == CoordinatorPhase::Complete,
        v.outcome() is None,
{
}

/// A driver that fails while exchanges are outstanding has every one of them
/// cancelled: the caller is told to cancel, no further exchange can start,
/// the failure is on record, and the run cannot wind down before each
/// exchange has been handed back.
pub proof fn law_driver_failure_cancels(v: CoordinatorView)
    requires
        v.wf(),
        v.phase == CoordinatorPhase::Running,
        v.outstanding > 0,
    ensures
        v.action(CoordinatorEvent::DriverFailed) == CoordinatorAction::CancelExchanges,
        v.step(CoordinatorEvent::DriverFailed).phase == CoordinatorPhase::Cancelling,
        v.step(CoordinatorEvent::DriverFailed).outstanding == v.outstanding,
        v.step(CoordinatorEvent::DriverFailed).failure is Some,
        v.failure is None ==> v.step(CoordinatorEvent::DriverFailed).failure == Some(
            ClientError::ConnectionLost,
        ),
        !v.step(CoordinatorEvent::DriverFailed).can_start(),
{
}

/// A failure of one stream leaves the sibling exchanges alone; a
/// connection-level failure has them cancelled.
pub proof fn law_failure_scope(v: CoordinatorView, e: ClientError)
    requires
        v.phase == CoordinatorPhase::Running,
        v.outstanding > 1,
    ensures
        !e.is_connection_level() ==> v.finished(Some(e)).phase == CoordinatorPhase::Running
            && v.finished_action(Some(e)) == CoordinatorAction::Continue,
        e.is_connection_level() ==> v.finished(Some(e)).phase == CoordinatorPhase::Cancelling
            && v.finished_action(Some(e)) == CoordinatorAction::CancelExchanges,
        v.finished(Some(e)).outstanding == v.outstanding - 1,
{
}

/// A cancelled run still goes through the teardown: cancelling never
/// completes the run, and from then on its outcome is a failure.
pub proof fn law_cancel_keeps_teardown(v: CoordinatorView)
    requires
        v.wf(),
        v.phase != CoordinatorPhase::Complete,
    ensures
        v.step(CoordinatorEvent::Cancel).phase != CoordinatorPhase::Complete,
        v.step(CoordinatorEvent::Cancel).failure is Some,
        v.outstanding > 0 && v.phase == CoordinatorPhase::Running ==> v.action(
            CoordinatorEvent::Cancel,
        ) == CoordinatorAction::CancelExchanges,
{
}

/// Every run that begins on an active session with no stream in flight is
/// orderly from start to end, whatever happens to it. So every complete run,
/// failed and cancelled ones too, has closed its connection, with no stream
/// in flight.
pub proof fn law_orderly_run(
    v: CoordinatorView,
    event: CoordinatorEvent,
    error: Option<ClientError>,
)
    requires
        v.orderly(),
    ensures
        v.step(event).orderly(),
        v.finished(error).orderly(),
        v.can_start() ==> v.started().orderly(),
        v.phase == CoordinatorPhase::Complete ==> v.session.connection.state
            == ConnectionState::Closed && v.session.connection.in_flight == 0,
{
}

/// A coordinator that takes charge of an active session with no stream in
/// flight begins orderly.
pub proof fn law_orderly_start(session: SessionView)
    requires
        session.wf(),
        session.state == SessionState::Active,
        session.connection.in_flight == 0,
    ensures
        CoordinatorView::running(session).orderly(),
{
}

/// A run whose one exchange yields a response completes without error, after
/// a graceful close: on an active session with nothing else in flight, once
/// the exchange is back, the driver has ended and the endpoint is idle, the
/// session and the connection are closed, by this side, with no stream left.
pub proof fn law_clean_run(session: SessionView)
    requires
        session.wf(),
        session.state == SessionState::Active,
        session.connection.in_flight == 0,
        session.connection.opened < u64::MAX,
    ensures
        ({
            let begun = CoordinatorView::running(session);
            let end = begun.started().finished(None).step(CoordinatorEvent::DriverFinished).step(
                CoordinatorEvent::EndpointIdle,
            );
            &&& begun.can_start()
            &&& begun.started().finished_action(None) == CoordinatorAction::ReleaseSenders
            &&& begun.started().finished(None).action(CoordinatorEvent::DriverFinished)
                == CoordinatorAction::WaitIdle
            &&& end.phase == CoordinatorPhase::Complete
            &&& end.outcome() == Some(Ok::<(), ClientError>(()))
            &&& end.session.state == SessionState::Closed
            &&& end.session.connection.state == ConnectionState::Closed
            &&& end.session.connection.cause == Some(CloseCause::Local)
            &&& end.session.connection.in_flight == 0
        }),
{
}

/// The first failure seen is the one the run reports: once a failure is on
/// record no event and no exchange replaces it.
pub proof fn law_first_failure_stays(
    v: CoordinatorView,
    event: CoordinatorEvent,
    error: Option<ClientError>,
)
    requires
        v.failure is Some,
    ensures
        v.step(event).failure == v.failure,
        v.finished(error).failure == v.failure,
{
}

} // verus!
