//! The HTTP/3 session on top of one connection.
//!
//! A session is `Initializing` until the control-stream setup ends, `Active`
//! while senders can originate request streams, `Draining` once every sender
//! is gone or a close was requested (no new stream is accepted, those in
//! flight are still served) and `Closed` when the driver has seen the
//! connection fully idle. The session counts its sender handles: while one
//! lives, this side does not close the connection.

use vstd::prelude::*;
use crate::connection::{CloseCause, Connection, ConnectionOp, ConnectionState, ConnectionView};
use crate::error::ClientError;
use crate::stream::{Stream, StreamView};

verus! {

/// Where a session stands in its life.
#[derive(Clone, Copy, Debug, PartialEq, Eq, Structural)]
pub enum SessionState {
    Initializing,
    Active,
    Draining,
    Closed,
}

/// What can happen to a session.
#[derive(Clone, Copy, Debug, PartialEq, Eq, Structural)]
pub enum SessionOp {
    SetupCompleted,
    SetupFailed,
    CloneSender,
    DropSender,
    ReleaseSenders,
    RequestClose,
    OpenStream,
    ReleaseStream,
    ObserveIdle,
    PeerClosed(CloseCause),
    FinishClose,
}

/// The mathematical model of a session.
pub struct SessionView {
    pub state: SessionState,
    /// Sender handles that are alive.
    pub senders: nat,
    pub connection: ConnectionView,
}

impl SessionView {
    /// A session whose setup has just begun on `connection`.
    pub open spec fn initializing(connection: ConnectionView) -> SessionView {
        SessionView { state: SessionState::Initializing, senders: 0, connection }
    }

    /// How far along its life the value is; it never decreases.
    pub open spec fn rank(self) -> nat {
        match self.state {
            SessionState::Initializing => 0,
            SessionState::Active => 1,
            SessionState::Draining => 2,
            SessionState::Closed => 3,
        }
    }

    /// Whether the session and its connection have nothing left to do.
    pub open spec fn idle(self) -> bool {
        self.senders == 0 && self.connection.in_flight == 0
    }

    /// Whether `op` is in order in this state.
    pub open spec fn permits(self, op: SessionOp) -> bool {
        match op {
            SessionOp::SetupCompleted => self.state == SessionState::Initializing
                && self.connection.state == ConnectionState::Established,
            SessionOp::SetupFailed => self.state == SessionState::Initializing,
            SessionOp::CloneSender => 1 <= self.senders < u64::MAX,
            SessionOp::DropSender => self.senders >= 1,
            SessionOp::ReleaseSenders => self.senders >= 1,
            SessionOp::RequestClose => self.state == SessionState::Active,
            SessionOp::OpenStream => self.state == SessionState::Active && self.connection.ready(),
            SessionOp::ReleaseStream => self.connection.permits(ConnectionOp::ReleaseStream),
            SessionOp::ObserveIdle => self.state == SessionState::Draining && self.idle(),
            SessionOp::PeerClosed(cause) => cause != CloseCause::Local && self.connection.permits(
                ConnectionOp::BeginClose(cause),
            ),
            SessionOp::FinishClose => self.senders == 0 && self.connection.permits(
                ConnectionOp::FinishClose,
            ),
        }
    }

    /// The state after a permitted `op`.
    pub open spec fn after(self, op: SessionOp) -> SessionView {
        match op {
            SessionOp::SetupCompleted => SessionView {
                state: SessionState::Active,
                senders: 1,
                ..self
            },
            SessionOp::SetupFailed => SessionView {
                state: SessionState::Closed,
                senders: 0,
                connection: self.connection.step(ConnectionOp::BeginClose(CloseCause::Local)),
            },
            SessionOp::CloneSender => SessionView { senders: self.senders + 1, ..self },
            SessionOp::DropSender => SessionView {
                state: if self.senders == 1 && self.state == SessionState::Active {
                    SessionState::Draining
                } else {
                    self.state
                },
                senders: (self.senders - 1) as nat,
                ..self
            },
            SessionOp::ReleaseSenders => SessionView {
                state: if self.state == SessionState::Active {
                    SessionState::Draining
                } else {
                    self.state
                },
                senders: 0,
                ..self
            },
            SessionOp::RequestClose => SessionView { state: SessionState::Draining, ..self },
            SessionOp::OpenStream => SessionView {
                connection: self.connection.step(ConnectionOp::OpenStream),
                ..self
            },
            SessionOp::ReleaseStream => SessionView {
                connection: self.connection.step(ConnectionOp::ReleaseStream),
                ..self
            },
            SessionOp::ObserveIdle => SessionView {
                state: SessionState::Closed,
                connection: self.connection.step(ConnectionOp::BeginClose(CloseCause::Local)),
                ..self
            },
            SessionOp::PeerClosed(cause) => SessionView {
                state: match self.state {
                    SessionState::Initializing => SessionState::Closed,
                    SessionState::Active => SessionState::Draining,
                    other => other,
                },
                connection: self.connection.step(ConnectionOp::BeginClose(cause)),
                ..self
            },
            SessionOp::FinishClose => SessionView {
                state: SessionState::Closed,
                connection: self.connection.step(ConnectionOp::FinishClose),
                ..self
            },
        }
    }

    /// The session after `op` was attempted: a refused operation changes nothing.
    pub open spec fn step(self, op: SessionOp) -> SessionView {
        if self.permits(op) {
            self.after(op)
        } else {
            self
        }
    }

    /// The session after every operation of `ops` was attempted in turn.
    pub open spec fn run(self, ops: Seq<SessionOp>) -> SessionView
        decreases ops.len(),
    {
        if ops.len() == 0 {
            self
        } else {
            self.run(ops.drop_last()).step(ops.last())
        }
    }

    /// What holds of every session that began on a well-formed connection.
    pub open spec fn wf(self) -> bool {
        &&& self.connection.wf()
        &&& self.state == SessionState::Initializing ==> self.senders == 0
        &&& self.state == SessionState::Active ==> self.senders >= 1 && self.connection.state
            == ConnectionState::Established
        &&& self.state == SessionState::Closed ==> self.senders == 0
    }
}

/// A session as the client holds it, together with the connection it runs
/// on. Its model is `SessionView`.
#[derive(Debug)]
pub struct Session {
    state: SessionState,
    senders: u64,
    connection: Connection,
}

impl View for Session {
    type V = SessionView;

    closed spec fn view(&self) -> SessionView {
        SessionView { state: self.state, senders: self.senders as nat, connection: self.connection@ }
    }
}

impl Session {
    /// A session whose setup has just begun on `connection`.
    pub fn new(connection: Connection) -> (s: Session)
        ensures
            s@ == SessionView::initializing(connection@),
            connection@.wf() ==> s@.wf(),
    {
        Session { state: SessionState::Initializing, senders: 0, connection }
    }

    pub fn state(&self) -> (s: SessionState)
        ensures
            s == self@.state,
    {
        self.state
    }

    pub fn senders(&self) -> (n: u64)
        ensures
            n as nat == self@.senders,
    {
        self.senders
    }

    pub fn connection(&self) -> (c: &Connection)
        ensures
            c@ == self@.connection,
    {
        &self.connection
    }

    /// Gives the connection back, ending the session's hold on it.
    pub fn into_connection(self) -> (c: Connection)
        ensures
            c@ == self@.connection,
    {
        self.connection
    }

    /// Whether the session and its connection have nothing left to do.
    pub fn is_idle(&self) -> (b: bool)
        ensures
            b == self@.idle(),
    {
        self.senders == 0 && self.connection.in_flight() == 0
    }

    /// The setup succeeded: the session is active and holds its first sender.
    /// Refused with `OrderingViolation` unless the session was initializing,
    /// and with `ConnectionNotReady` unless its connection is established.
    pub fn setup_completed(&mut self) -> (r: Result<(), ClientError>)
        ensures
            final(self)@ == old(self)@.step(SessionOp::SetupCompleted),
            r is Ok <==> old(self)@.permits(SessionOp::SetupCompleted),
            r is Err ==> r->Err_0 == (if old(self)@.state != SessionState::Initializing {
                ClientError::OrderingViolation
            } else {
                ClientError::ConnectionNotReady
            }),
            old(self)@.wf() ==> final(self)@.wf(),
    {
        if self.state != SessionState::Initializing {
            return Err(ClientError::OrderingViolation);
        }
        if self.connection.state() != ConnectionState::Established {
            return Err(ClientError::ConnectionNotReady);
        }
        self.state = SessionState::Active;
        self.senders = 1;
        Ok(())
    }

    /// The peer did not complete the setup in time: an initializing session is
    /// closed and its connection starts closing. The result is the error to
    /// report.
    pub fn setup_failed(&mut self) -> (e: ClientError)
        ensures
            final(self)@ == old(self)@.step(SessionOp::SetupFailed),
            e == ClientError::SessionSetupError,
            old(self)@.wf() ==> final(self)@.wf(),
    {
        if self.state == SessionState::Initializing {
            self.state = SessionState::Closed;
            self.senders = 0;
            let _ = self.connection.begin_close(CloseCause::Local);
        }
        ClientError::SessionSetupError
    }

    /// Counts one more sender handle, and says whether it did.
    pub fn clone_sender(&mut self) -> (cloned: bool)
        ensures
            final(self)@ == old(self)@.step(SessionOp::CloneSender),
            cloned == old(self)@.permits(SessionOp::CloneSender),
            old(self)@.wf() ==> final(self)@.wf(),
    {
        if 1 <= self.senders && self.senders < u64::MAX {
            self.senders = self.senders + 1;
            true
        } else {
            false
        }
    }

    /// Counts one sender handle less, and says whether there was one. When the
    /// last sender of an active session goes, the session starts draining.
    pub fn drop_sender(&mut self) -> (dropped: bool)
        ensures
            final(self)@ == old(self)@.step(SessionOp::DropSender),
            dropped == old(self)@.permits(SessionOp::DropSender),
            old(self)@.wf() ==> final(self)@.wf(),
    {
        if self.senders == 0 {
            return false;
        }
        if self.senders == 1 && self.state == SessionState::Active {
            self.state = SessionState::Draining;
        }
        self.senders = self.senders - 1;
        true
    }

    /// Counts every sender handle as gone, and says whether there was one. An
    /// active session starts draining.
    pub fn release_senders(&mut self) -> (released: bool)
        ensures
            final(self)@ == old(self)@.step(SessionOp::ReleaseSenders),
            released == old(self)@.permits(SessionOp::ReleaseSenders),
            old(self)@.wf() ==> final(self)@.wf(),
    {
        if self.senders == 0 {
            return false;
        }
        if self.state == SessionState::Active {
            self.state = SessionState::Draining;
        }
        self.senders = 0;
        true
    }

    /// Asks an active session to drain, and says whether it did.
    pub fn request_close(&mut self) -> (began: bool)
        ensures
            final(self)@ == old(self)@.step(SessionOp::RequestClose),
            began == old(self)@.permits(SessionOp::RequestClose),
            old(self)@.wf() ==> final(self)@.wf(),
    {
        if self.state == SessionState::Active {
            self.state = SessionState::Draining;
            true
        } else {
            false
        }
    }

    /// Opens a request stream. Fails with `ConnectionNotReady`, and changes
    /// nothing, unless the session is active and its connection can carry
    /// another stream.
    pub fn open_stream(&mut self) -> (r: Result<Stream, ClientError>)
        ensures
            final(self)@ == old(self)@.step(SessionOp::OpenStream),
            old(self)@.permits(SessionOp::OpenStream) ==> r is Ok && r->Ok_0@ == StreamView::fresh(
                old(self)@.connection.opened,
            ),
            !old(self)@.permits(SessionOp::OpenStream) ==> r is Err && r->Err_0
                == ClientError::ConnectionNotReady,
            old(self)@.wf() ==> final(self)@.wf(),
    {
        if self.state != SessionState::Active {
            return Err(ClientError::ConnectionNotReady);
        }
        self.connection.open_stream()
    }

    /// Takes a stream back, in any state of the session.
    pub fn release_stream(&mut self, stream: Stream)
        ensures
            final(self)@ == old(self)@.step(SessionOp::ReleaseStream),
            old(self)@.wf() ==> final(self)@.wf(),
    {
        self.connection.release_stream(stream);
    }

    /// The driver saw the connection fully idle: a draining session with no
    /// sender and no stream left is closed, and its connection starts closing.
    /// Says whether that happened.
    pub fn observe_idle(&mut self) -> (closed: bool)
        ensures
            final(self)@ == old(self)@.step(SessionOp::ObserveIdle),
            closed == old(self)@.permits(SessionOp::ObserveIdle),
            old(self)@.wf() ==> final(self)@.wf(),
    {
        if self.state == SessionState::Draining && self.is_idle() {
            self.state = SessionState::Closed;
            let _ = self.connection.begin_close(CloseCause::Local);
            true
        } else {
            false
        }
    }

    /// The peer reset the connection, or it timed out idle. The connection
    /// starts closing and the session accepts no further stream. Says whether
    /// the close began.
    pub fn peer_closed(&mut self, cause: CloseCause) -> (began: bool)
        ensures
            final(self)@ == old(self)@.step(SessionOp::PeerClosed(cause)),
            began == old(self)@.permits(SessionOp::PeerClosed(cause)),
            old(self)@.wf() ==> final(self)@.wf(),
    {
        if cause == CloseCause::Local {
            return false;
        }
        if !self.connection.begin_close(cause) {
            return false;
        }
        match self.state {
            SessionState::Initializing => {
                self.state = SessionState::Closed;
            },
            SessionState::Active => {
                self.state = SessionState::Draining;
            },
            _ => {},
        }
        true
    }

    /// The endpoint saw the connection closed: with no sender and no stream
    /// left, a closing connection is closed, and the session with it. Says
    /// whether that happened.
    pub fn finish_close(&mut self) -> (closed: bool)
        ensures
            final(self)@ == old(self)@.step(SessionOp::FinishClose),
            closed == old(self)@.permits(SessionOp::FinishClose),
            old(self)@.wf() ==> final(self)@.wf(),
    {
        if self.senders != 0 {
            return false;
        }
        if !self.connection.finish_close() {
            return false;
        }
        self.state = SessionState::Closed;
        true
    }
}

/// Every session that began on a well-formed connection is well-formed,
/// whatever was attempted on it.
pub proof fn law_session_wf(connection: ConnectionView, ops: Seq<SessionOp>)
    requires
        connection.wf(),
    ensures
        SessionView::initializing(connection).run(ops).wf(),
    decreases ops.len(),
{
    if ops.len() > 0 {
        law_session_wf(connection, ops.drop_last());
    }
}

/// A session only moves forward: Initializing, Active, Draining, Closed.
pub proof fn law_session_advances(v: SessionView, op: SessionOp)
    ensures
        v.rank() <= v.step(op).rank(),
{
}

/// Only an active session accepts a new stream; a draining one still takes
/// back those in flight.
pub proof fn law_draining_serves_in_flight(v: SessionView)
    requires
        v.state == SessionState::Draining,
    ensures
        !v.permits(SessionOp::OpenStream),
        v.step(SessionOp::OpenStream) == v,
        v.connection.in_flight > 0 ==> v.permits(SessionOp::ReleaseStream) && v.step(
            SessionOp::ReleaseStream,
        ).connection.in_flight == v.connection.in_flight - 1,
{
}

/// While a sender lives, this side does not close the connection: if a step
/// takes an established connection out of that state, the peer or the idle
/// timer did it.
pub proof fn law_sender_keeps_connection_open(v: SessionView, op: SessionOp)
    requires
        v.wf(),
        v.senders > 0,
        v.connection.state == ConnectionState::Established,
        v.step(op).connection.state != ConnectionState::Established,
    ensures
        op matches SessionOp::PeerClosed(cause) && cause != CloseCause::Local,
        v.step(op).connection.cause != Some(CloseCause::Local),
{
}

/// Releasing every sender at once comes to the same as dropping them one by
/// one.
pub proof fn law_release_is_repeated_drop(v: SessionView, n: nat)
    requires
        v.senders == n,
        n >= 1,
    ensures
        v.run(Seq::new(n, |i: int| SessionOp::DropSender)) == v.step(SessionOp::ReleaseSenders),
{
    lemma_drops(v, n, n);
}

/// After `k` of `n` senders were dropped, `n - k` are left and the session has
/// not started draining unless none is left.
proof fn lemma_drops(v: SessionView, n: nat, k: nat)
    requires
        v.senders == n,
        k <= n,
        n >= 1,
    ensures
        v.run(Seq::new(k, |i: int| SessionOp::DropSender)) == (if k == n {
            v.step(SessionOp::ReleaseSenders)
        } else {
            SessionView { senders: (n - k) as nat, ..v }
        }),
    decreases k,
{
    let drops = Seq::new(k, |i: int| SessionOp::DropSender);
    if k > 0 {
        lemma_drops(v, n, (k - 1) as nat);
        assert(drops.drop_last() == Seq::new((k - 1) as nat, |i: int| SessionOp::DropSender));
        assert(drops.last() == SessionOp::DropSender);
    }
}

/// A session closes only when no sender is left; when the driver closes it
/// on seeing the connection idle, no stream is in flight either.
pub proof fn law_session_closes_idle(v: SessionView, op: SessionOp)
    requires
        v.wf(),
        v.state != SessionState::Closed,
        v.step(op).state == SessionState::Closed,
    ensures
        v.step(op).senders == 0,
        op == SessionOp::ObserveIdle ==> v.step(op).connection.in_flight == 0,
{
}

/// A session whose setup never completed opens no stream.
pub proof fn law_no_stream_before_setup(connection: ConnectionView, ops: Seq<SessionOp>)
    requires
        forall|j: int| 0 <= j < ops.len() ==> ops[j] != SessionOp::SetupCompleted,
    ensures
        SessionView::initializing(connection).run(ops).state != SessionState::Active,
        SessionView::initializing(connection).run(ops).connection.opened == connection.opened,
        SessionView::initializing(connection).run(ops).senders == 0,
    decreases ops.len(),
{
    if ops.len() > 0 {
        law_no_stream_before_setup(connection, ops.drop_last());
    }
}

} // verus!
