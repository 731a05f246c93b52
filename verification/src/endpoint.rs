//! The local endpoint: where connections originate.
//!
//! An endpoint is `Open` while it may originate connections, `Draining` once
//! the run waits for them to close, and `Closed` when none is left. It counts
//! the connections it originated and takes one back only when that connection
//! is closed; so an endpoint never closes over a connection that is still
//! open, nor, since a connection closes only with no stream in flight, over a
//! stream.

use vstd::prelude::*;
use crate::connection::{Connection, ConnectionState, ConnectionView};
use crate::error::ClientError;

verus! {

/// Where an endpoint stands in its life.
#[derive(Clone, Copy, Debug, PartialEq, Eq, Structural)]
pub enum EndpointState {
    Open,
    Draining,
    Closed,
}

/// What can happen to an endpoint.
#[derive(Clone, Copy, Debug, PartialEq, Eq, Structural)]
pub enum EndpointOp {
    Connect,
    Retire,
    BeginDrain,
    FinishDrain,
}

/// The mathematical model of an endpoint.
pub struct EndpointView {
    pub state: EndpointState,
    /// Connections originated and not yet taken back.
    pub connections: nat,
}

impl EndpointView {
    /// An endpoint that has just been bound.
    pub open spec fn bound() -> EndpointView {
        EndpointView { state: EndpointState::Open, connections: 0 }
    }

    /// How far along its life the value is; it never decreases.
    pub open spec fn rank(self) -> nat {
        match self.state {
            EndpointState::Open => 0,
            EndpointState::Draining => 1,
            EndpointState::Closed => 2,
        }
    }

    /// Whether `op` is in order in this state.
    pub open spec fn permits(self, op: EndpointOp) -> bool {
        match op {
            EndpointOp::Connect => self.state == EndpointState::Open && self.connections
                < u64::MAX,
            EndpointOp::Retire => self.connections > 0,
            EndpointOp::BeginDrain => self.state == EndpointState::Open,
            EndpointOp::FinishDrain => self.state == EndpointState::Draining && self.connections
                == 0,
        }
    }

    /// The state after a permitted `op`.
    pub open spec fn after(self, op: EndpointOp) -> EndpointView {
        match op {
            EndpointOp::Connect => EndpointView { connections: self.connections + 1, ..self },
            EndpointOp::Retire => EndpointView {
                connections: (self.connections - 1) as nat,
                ..self
            },
            EndpointOp::BeginDrain => EndpointView { state: EndpointState::Draining, ..self },
            EndpointOp::FinishDrain => EndpointView { state: EndpointState::Closed, ..self },
        }
    }

    /// The endpoint after `op` was attempted: a refused operation changes nothing.
    pub open spec fn step(self, op: EndpointOp) -> EndpointView {
        if self.permits(op) {
            self.after(op)
        } else {
            self
        }
    }

    /// The endpoint after every operation of `ops` was attempted in turn.
    pub open spec fn run(self, ops: Seq<EndpointOp>) -> EndpointView
        decreases ops.len(),
    {
        if ops.len() == 0 {
            self
        } else {
            self.run(ops.drop_last()).step(ops.last())
        }
    }

    /// What holds of every endpoint since it was bound.
    pub open spec fn wf(self) -> bool {
        self.state == EndpointState::Closed ==> self.connections == 0
    }
}

/// An endpoint as the client holds it. Its model is `EndpointView`.
#[derive(Debug)]
pub struct Endpoint {
    state: EndpointState,
    connections: u64,
}

impl View for Endpoint {
    type V = EndpointView;

    closed spec fn view(&self) -> EndpointView {
        EndpointView { state: self.state, connections: self.connections as nat }
    }
}

impl Endpoint {
    /// An endpoint that has just been bound.
    pub fn new() -> (e: Endpoint)
        ensures
            e@ == EndpointView::bound(),
    {
        Endpoint { state: EndpointState::Open, connections: 0 }
    }

    pub fn state(&self) -> (s: EndpointState)
        ensures
            s == self@.state,
    {
        self.state
    }

    pub fn connections(&self) -> (n: u64)
        ensures
            n as nat == self@.connections,
    {
        self.connections
    }

    /// Originates a connection, which starts connecting. Fails with
    /// `ConnectionNotReady`, and changes nothing, once the endpoint drains.
    pub fn connect(&mut self) -> (r: Result<Connection, ClientError>)
        ensures
            final(self)@ == old(self)@.step(EndpointOp::Connect),
            old(self)@.permits(EndpointOp::Connect) ==> r is Ok && r->Ok_0@
                == ConnectionView::connecting(),
            !old(self)@.permits(EndpointOp::Connect) ==> r is Err && r->Err_0
                == ClientError::ConnectionNotReady,
            old(self)@.wf() ==> final(self)@.wf(),
    {
        if self.state != EndpointState::Open || self.connections == u64::MAX {
            return Err(ClientError::ConnectionNotReady);
        }
        self.connections = self.connections + 1;
        Ok(Connection::new())
    }

    /// Takes a connection back once it is closed. A connection that is not
    /// closed yet is handed back as it is, and nothing changes.
    pub fn retire(&mut self, connection: Connection) -> (r: Result<(), Connection>)
        ensures
            connection@.state == ConnectionState::Closed ==> final(self)@ == old(self)@.step(
                EndpointOp::Retire,
            ),
            connection@.state != ConnectionState::Closed ==> final(self)@ == old(self)@,
            r is Ok <==> connection@.state == ConnectionState::Closed && old(self)@.permits(
                EndpointOp::Retire,
            ),
            r is Err ==> r->Err_0@ == connection@,
            old(self)@.wf() ==> final(self)@.wf(),
    {
        if connection.state() != ConnectionState::Closed || self.connections == 0 {
            return Err(connection);
        }
        self.connections = self.connections - 1;
        Ok(())
    }

    /// Stops originating connections and starts waiting for those that are
    /// left. Says whether the drain began.
    pub fn begin_drain(&mut self) -> (began: bool)
        ensures
            final(self)@ == old(self)@.step(EndpointOp::BeginDrain),
            began == old(self)@.permits(EndpointOp::BeginDrain),
            old(self)@.wf() ==> final(self)@.wf(),
    {
        if self.state == EndpointState::Open {
            self.state = EndpointState::Draining;
            true
        } else {
            false
        }
    }

    /// Closes a draining endpoint once every connection has been taken back.
    /// Says whether it closed.
    pub fn finish_drain(&mut self) -> (closed: bool)
        ensures
            final(self)@ == old(self)@.step(EndpointOp::FinishDrain),
            closed == old(self)@.permits(EndpointOp::FinishDrain),
            old(self)@.wf() ==> final(self)@.wf(),
    {
        if self.state == EndpointState::Draining && self.connections == 0 {
            self.state = EndpointState::Closed;
            true
        } else {
            false
        }
    }
}

/// Every endpoint is well-formed since it was bound, whatever was attempted
/// on it: once closed, it holds no connection.
pub proof fn law_endpoint_wf(ops: Seq<EndpointOp>)
    ensures
        EndpointView::bound().run(ops).wf(),
    decreases ops.len(),
{
    if ops.len() > 0 {
        law_endpoint_wf(ops.drop_last());
    }
}

/// An endpoint only moves forward: Open, Draining, Closed. Once it drains it
/// originates no connection, and once closed nothing changes it.
pub proof fn law_endpoint_advances(v: EndpointView, op: EndpointOp)
    requires
        v.wf(),
    ensures
        v.rank() <= v.step(op).rank(),
        v.state != EndpointState::Open ==> !v.permits(EndpointOp::Connect),
        v.state == EndpointState::Closed ==> v.step(op) == v,
{
}

/// An endpoint closes only by finishing its drain, and only when every
/// connection it originated has been taken back.
pub proof fn law_endpoint_closes_empty(v: EndpointView, op: EndpointOp)
    requires
        v.state != EndpointState::Closed,
        v.step(op).state == EndpointState::Closed,
    ensures
        op == EndpointOp::FinishDrain,
        v.state == EndpointState::Draining,
        v.connections == 0,
{
}

} // verus!
