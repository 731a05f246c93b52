//! One QUIC connection to one remote authority, as the client sees it.
//!
//! A connection is `Connecting` until the handshake ends, `Established` while
//! it can carry streams, `Closing` once a close was initiated (by this side,
//! by the peer, or by an idle timeout) and `Closed` when nothing is left in
//! flight. It never closes while a stream is in flight, and a close that this
//! side initiates does not even begin before its streams are released.

use vstd::prelude::*;
use crate::error::{ClientError, HandshakeFailure};
use crate::stream::{Stream, StreamView};

verus! {

/// Where a connection stands in its life.
#[derive(Clone, Copy, Debug, PartialEq, Eq, Structural)]
pub enum ConnectionState {
    Connecting,
    Established,
    Closing,
    Closed,
}

/// Who initiated a close.
#[derive(Clone, Copy, Debug, PartialEq, Eq, Structural)]
pub enum CloseCause {
    /// This side shut the connection down.
    Local,
    /// The peer reset the connection.
    Peer,
    /// The connection sat idle for too long.
    IdleTimeout,
}

/// What can happen to a connection.
#[derive(Clone, Copy, Debug, PartialEq, Eq, Structural)]
pub enum ConnectionOp {
    HandshakeCompleted,
    HandshakeFailed,
    OpenStream,
    ReleaseStream,
    BeginClose(CloseCause),
    FinishClose,
}

/// The mathematical model of a connection.
pub struct ConnectionView {
    pub state: ConnectionState,
    /// Streams opened and not yet released.
    pub in_flight: nat,
    /// Streams opened so far; the next stream gets this number.
    pub opened: nat,
    /// Who initiated the close, once one was.
    pub cause: Option<CloseCause>,
}

impl ConnectionView {
    /// A connection whose handshake has just begun.
    pub open spec fn connecting() -> ConnectionView {
        ConnectionView { state: ConnectionState::Connecting, in_flight: 0, opened: 0, cause: None }
    }

    /// How far along its life the value is; it never decreases.
    pub open spec fn rank(self) -> nat {
        match self.state {
            ConnectionState::Connecting => 0,
            ConnectionState::Established => 1,
            ConnectionState::Closing => 2,
            ConnectionState::Closed => 3,
        }
    }

    /// Whether a stream can be opened: the connection is established and its
    /// stream counters have room.
    pub open spec fn ready(self) -> bool {
        &&& self.state == ConnectionState::Established
        &&& self.opened < u64::MAX
        &&& self.in_flight < u64::MAX
    }

    /// Whether `op` is in order in this state.
    pub open spec fn permits(self, op: ConnectionOp) -> bool {
        match op {
            ConnectionOp::HandshakeCompleted => self.state == ConnectionState::Connecting,
            ConnectionOp::HandshakeFailed => self.state == ConnectionState::Connecting,
            ConnectionOp::OpenStream => self.ready(),
            ConnectionOp::ReleaseStream => self.in_flight > 0,
            ConnectionOp::BeginClose(cause) => self.state == ConnectionState::Established && (cause
                == CloseCause::Local ==> self.in_flight == 0),
            ConnectionOp::FinishClose => self.state == ConnectionState::Closing && self.in_flight
                == 0,
        }
    }

    /// The state after a permitted `op`.
    pub open spec fn after(self, op: ConnectionOp) -> ConnectionView {
        match op {
            ConnectionOp::HandshakeCompleted => ConnectionView {
                state: ConnectionState::Established,
                ..self
            },
            ConnectionOp::HandshakeFailed => ConnectionView {
                state: ConnectionState::Closed,
                ..self
            },
            ConnectionOp::OpenStream => ConnectionView {
                in_flight: self.in_flight + 1,
                opened: self.opened + 1,
                ..self
            },
            ConnectionOp::ReleaseStream => ConnectionView {
                in_flight: (self.in_flight - 1) as nat,
                ..self
            },
            ConnectionOp::BeginClose(cause) => ConnectionView {
                state: ConnectionState::Closing,
                cause: Some(cause),
                ..self
            },
            ConnectionOp::FinishClose => ConnectionView { state: ConnectionState::Closed, ..self },
        }
    }

    /// The connection after `op` was attempted: a refused operation changes nothing.
    pub open spec fn step(self, op: ConnectionOp) -> ConnectionView {
        if self.permits(op) {
            self.after(op)
        } else {
            self
        }
    }

    /// The connection after every operation of `ops` was attempted in turn.
    pub open spec fn run(self, ops: Seq<ConnectionOp>) -> ConnectionView
        decreases ops.len(),
    {
        if ops.len() == 0 {
            self
        } else {
            self.run(ops.drop_last()).step(ops.last())
        }
    }

    /// What holds of every connection that began connecting.
    pub open spec fn wf(self) -> bool {
        &&& self.in_flight <= self.opened
        &&& self.state == ConnectionState::Connecting ==> self.opened == 0
        &&& self.state == ConnectionState::Closed ==> self.in_flight == 0
        &&& self.state == ConnectionState::Closing ==> self.cause is Some
        &&& self.state == ConnectionState::Connecting || self.state
            == ConnectionState::Established ==> self.cause is None
    }
}

/// A connection as the client holds it. Its model is `ConnectionView`.
#[derive(Debug)]
pub struct Connection {
    state: ConnectionState,
    in_flight: u64,
    opened: u64,
    cause: Option<CloseCause>,
}

impl View for Connection {
    type V = ConnectionView;

    closed spec fn view(&self) -> ConnectionView {
        ConnectionView {
            state: self.state,
            in_flight: self.in_flight as nat,
            opened: self.opened as nat,
            cause: self.cause,
        }
    }
}

impl Connection {
    /// A connection whose handshake has just begun.
    pub fn new() -> (c: Connection)
        ensures
            c@ == ConnectionView::connecting(),
            c@.wf(),
    {
        Connection { state: ConnectionState::Connecting, in_flight: 0, opened: 0, cause: None }
    }

    pub fn state(&self) -> (s: ConnectionState)
        ensures
            s == self@.state,
    {
        self.state
    }

    pub fn in_flight(&self) -> (n: u64)
        ensures
            n as nat == self@.in_flight,
    {
        self.in_flight
    }

    pub fn opened(&self) -> (n: u64)
        ensures
            n as nat == self@.opened,
    {
        self.opened
    }

    pub fn close_cause(&self) -> (c: Option<CloseCause>)
        ensures
            c == self@.cause,
    {
        self.cause
    }

    /// Whether a stream could be opened now.
    pub fn is_ready(&self) -> (b: bool)
        ensures
            b == self@.ready(),
    {
        self.state == ConnectionState::Established && self.opened < u64::MAX && self.in_flight
            < u64::MAX
    }

    /// The handshake succeeded. Refused with `OrderingViolation` unless the
    /// connection was connecting.
    pub fn handshake_completed(&mut self) -> (r: Result<(), ClientError>)
        ensures
            final(self)@ == old(self)@.step(ConnectionOp::HandshakeCompleted),
            r is Ok <==> old(self)@.state == ConnectionState::Connecting,
            r is Err ==> r == Err::<(), ClientError>(ClientError::OrderingViolation),
            old(self)@.wf() ==> final(self)@.wf(),
    {
        if self.state == ConnectionState::Connecting {
            self.state = ConnectionState::Established;
            Ok(())
        } else {
            Err(ClientError::OrderingViolation)
        }
    }

    /// The handshake failed: a connecting connection is closed for good. The
    /// result is the error to report.
    pub fn handshake_failed(&mut self, failure: HandshakeFailure) -> (e: ClientError)
        ensures
            final(self)@ == old(self)@.step(ConnectionOp::HandshakeFailed),
            e == ClientError::HandshakeError(failure),
            old(self)@.wf() ==> final(self)@.wf(),
    {
        if self.state == ConnectionState::Connecting {
            self.state = ConnectionState::Closed;
        }
        ClientError::HandshakeError(failure)
    }

    /// Opens a stream, numbered by how many were opened before it. Fails with
    /// `ConnectionNotReady`, and changes nothing, unless the connection is
    /// established.
    pub fn open_stream(&mut self) -> (r: Result<Stream, ClientError>)
        ensures
            final(self)@ == old(self)@.step(ConnectionOp::OpenStream),
            old(self)@.ready() ==> r is Ok && r->Ok_0@ == StreamView::fresh(old(self)@.opened),
            !old(self)@.ready() ==> r is Err && r->Err_0 == ClientError::ConnectionNotReady,
            old(self)@.wf() ==> final(self)@.wf(),
    {
        if !self.is_ready() {
            return Err(ClientError::ConnectionNotReady);
        }
        let stream = Stream::new(self.opened);
        self.opened = self.opened + 1;
        self.in_flight = self.in_flight + 1;
        Ok(stream)
    }

    /// Takes a stream back. The stream is gone afterwards, whatever its state.
    pub fn release_stream(&mut self, stream: Stream)
        ensures
            final(self)@ == old(self)@.step(ConnectionOp::ReleaseStream),
            old(self)@.wf() ==> final(self)@.wf(),
    {
        if self.in_flight > 0 {
            self.in_flight = self.in_flight - 1;
        }
    }

    /// Starts closing an established connection and says whether it did. A
    /// close by this side is refused while a stream is in flight.
    pub fn begin_close(&mut self, cause: CloseCause) -> (began: bool)
        ensures
            final(self)@ == old(self)@.step(ConnectionOp::BeginClose(cause)),
            began == old(self)@.permits(ConnectionOp::BeginClose(cause)),
            old(self)@.wf() ==> final(self)@.wf(),
    {
        if self.state != ConnectionState::Established {
            return false;
        }
        if cause == CloseCause::Local && self.in_flight != 0 {
            return false;
        }
        self.state = ConnectionState::Closing;
        self.cause = Some(cause);
        true
    }

    /// Ends a close once nothing is in flight, and says whether it did.
    pub fn finish_close(&mut self) -> (closed: bool)
        ensures
            final(self)@ == old(self)@.step(ConnectionOp::FinishClose),
            closed == old(self)@.permits(ConnectionOp::FinishClose),
            old(self)@.wf() ==> final(self)@.wf(),
    {
        if self.state == ConnectionState::Closing && self.in_flight == 0 {
            self.state = ConnectionState::Closed;
            true
        } else {
            false
        }
    }
}

/// Every connection that began connecting is well-formed, whatever was
/// attempted on it. In particular a closed connection has no stream in flight.
pub proof fn law_connection_wf(ops: Seq<ConnectionOp>)
    ensures
        ConnectionView::connecting().run(ops).wf(),
        ConnectionView::connecting().run(ops).state == ConnectionState::Closed
            ==> ConnectionView::connecting().run(ops).in_flight == 0,
    decreases ops.len(),
{
    if ops.len() > 0 {
        law_connection_wf(ops.drop_last());
    }
}

/// A connection only moves forward: Connecting, Established, Closing, Closed.
pub proof fn law_connection_advances(v: ConnectionView, op: ConnectionOp)
    ensures
        v.rank() <= v.step(op).rank(),
        v.state == ConnectionState::Closed && v.in_flight == 0 ==> v.step(op) == v,
{
}

/// On a connection that never reached Established no stream is ever opened:
/// every attempt is refused, however the trace goes on.
pub proof fn law_no_stream_before_established(ops: Seq<ConnectionOp>)
    requires
        forall|j: int| 0 <= j < ops.len() ==> ops[j] != ConnectionOp::HandshakeCompleted,
    ensures
        ConnectionView::connecting().run(ops).state != ConnectionState::Established,
        !ConnectionView::connecting().run(ops).ready(),
        ConnectionView::connecting().run(ops).opened == 0,
        ConnectionView::connecting().run(ops).in_flight == 0,
    decreases ops.len(),
{
    if ops.len() > 0 {
        law_no_stream_before_established(ops.drop_last());
        let prev = ConnectionView::connecting().run(ops.drop_last());
        assert(prev.state == ConnectionState::Connecting || prev.state == ConnectionState::Closed)
            by {
            lemma_unestablished_states(ops.drop_last());
        }
    }
}

/// Without a completed handshake a connection is connecting or closed.
proof fn lemma_unestablished_states(ops: Seq<ConnectionOp>)
    requires
        forall|j: int| 0 <= j < ops.len() ==> ops[j] != ConnectionOp::HandshakeCompleted,
    ensures
        ConnectionView::connecting().run(ops).state == ConnectionState::Connecting
            || ConnectionView::connecting().run(ops).state == ConnectionState::Closed,
    decreases ops.len(),
{
    if ops.len() > 0 {
        lemma_unestablished_states(ops.drop_last());
    }
}

/// A close that this side initiates begins only when no stream is in flight.
pub proof fn law_local_close_is_graceful(v: ConnectionView)
    requires
        v.permits(ConnectionOp::BeginClose(CloseCause::Local)),
    ensures
        v.in_flight == 0,
        v.step(ConnectionOp::BeginClose(CloseCause::Local)).in_flight == 0,
{
}

} // verus!
