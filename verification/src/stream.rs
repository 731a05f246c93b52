//! One bidirectional stream: it carries one request and its one response.
//!
//! A stream is `Open` while the request is sent, `HalfClosedLocal` once the
//! sending side has finished, and `Closed` when the response body has been
//! drained or the stream was reset. Sending goes headers, body, finish;
//! receiving goes headers, then body.

use vstd::prelude::*;
use crate::error::ClientError;

verus! {

/// Where a stream stands in its life.
#[derive(Clone, Copy, Debug, PartialEq, Eq, Structural)]
pub enum StreamState {
    Open,
    HalfClosedLocal,
    Closed,
}

/// What can be done to a stream.
#[derive(Clone, Copy, Debug, PartialEq, Eq, Structural)]
pub enum StreamOp {
    SendHeaders,
    SendBody,
    Finish,
    RecvHeaders,
    RecvChunk,
    EndOfBody,
    Reset,
}

/// The mathematical model of a stream.
pub struct StreamView {
    pub id: nat,
    pub state: StreamState,
    pub headers_sent: bool,
    pub headers_received: bool,
}

impl StreamView {
    /// A stream on which nothing has happened yet.
    pub open spec fn fresh(id: nat) -> StreamView {
        StreamView { id, state: StreamState::Open, headers_sent: false, headers_received: false }
    }

    /// How far along its life the stream is.
    pub open spec fn rank(self) -> nat {
        match self.state {
            StreamState::Open => 0,
            StreamState::HalfClosedLocal => 1,
            StreamState::Closed => 2,
        }
    }

    /// Whether `op` is in order in this state.
    pub open spec fn permits(self, op: StreamOp) -> bool {
        match op {
            StreamOp::SendHeaders => self.state == StreamState::Open && !self.headers_sent,
            StreamOp::SendBody => self.state == StreamState::Open && self.headers_sent,
            StreamOp::Finish => self.state == StreamState::Open && self.headers_sent,
            StreamOp::RecvHeaders => self.state == StreamState::HalfClosedLocal
                && !self.headers_received,
            StreamOp::RecvChunk => self.state == StreamState::HalfClosedLocal
                && self.headers_received,
            StreamOp::EndOfBody => self.state == StreamState::HalfClosedLocal
                && self.headers_received,
            StreamOp::Reset => self.state != StreamState::Closed,
        }
    }

    /// The stream after a permitted `op`.
    pub open spec fn after(self, op: StreamOp) -> StreamView {
        match op {
            StreamOp::SendHeaders => StreamView { headers_sent: true, ..self },
            StreamOp::SendBody => self,
            StreamOp::Finish => StreamView { state: StreamState::HalfClosedLocal, ..self },
            StreamOp::RecvHeaders => StreamView { headers_received: true, ..self },
            StreamOp::RecvChunk => self,
            StreamOp::EndOfBody => StreamView { state: StreamState::Closed, ..self },
            StreamOp::Reset => StreamView { state: StreamState::Closed, ..self },
        }
    }

    /// The stream after `op` was attempted: a refused operation changes nothing.
    pub open spec fn step(self, op: StreamOp) -> StreamView {
        if self.permits(op) {
            self.after(op)
        } else {
            self
        }
    }

    /// The stream after every operation of `ops` was attempted in turn.
    pub open spec fn run(self, ops: Seq<StreamOp>) -> StreamView
        decreases ops.len(),
    {
        if ops.len() == 0 {
            self
        } else {
            self.run(ops.drop_last()).step(ops.last())
        }
    }

    /// Whether operation `i` of `ops` was accepted when the trace ran from `self`.
    pub open spec fn accepted(self, ops: Seq<StreamOp>, i: int) -> bool {
        0 <= i < ops.len() && self.run(ops.take(i)).permits(ops[i])
    }

    /// What holds of every stream that began fresh.
    pub open spec fn wf(self) -> bool {
        &&& self.state == StreamState::HalfClosedLocal ==> self.headers_sent
        &&& self.headers_received ==> self.headers_sent && self.state != StreamState::Open
    }
}

/// A stream as the client holds it. Its model is `StreamView`.
#[derive(Debug)]
pub struct Stream {
    id: u64,
    state: StreamState,
    headers_sent: bool,
    headers_received: bool,
}

impl View for Stream {
    type V = StreamView;

    closed spec fn view(&self) -> StreamView {
        StreamView {
            id: self.id as nat,
            state: self.state,
            headers_sent: self.headers_sent,
            headers_received: self.headers_received,
        }
    }
}

impl Stream {
    /// A fresh stream. Only a connection hands these out.
    pub(crate) fn new(id: u64) -> (s: Stream)
        ensures
            s@ == StreamView::fresh(id as nat),
    {
        Stream { id, state: StreamState::Open, headers_sent: false, headers_received: false }
    }

    pub fn id(&self) -> (id: u64)
        ensures
            id as nat == self@.id,
    {
        self.id
    }

    pub fn state(&self) -> (s: StreamState)
        ensures
            s == self@.state,
    {
        self.state
    }

    pub fn headers_sent(&self) -> (b: bool)
        ensures
            b == self@.headers_sent,
    {
        self.headers_sent
    }

    pub fn headers_received(&self) -> (b: bool)
        ensures
            b == self@.headers_received,
    {
        self.headers_received
    }

    /// Whether `op` would be accepted now.
    pub fn permits(&self, op: StreamOp) -> (b: bool)
        ensures
            b == self@.permits(op),
    {
        match op {
            StreamOp::SendHeaders => self.state == StreamState::Open && !self.headers_sent,
            StreamOp::SendBody => self.state == StreamState::Open && self.headers_sent,
            StreamOp::Finish => self.state == StreamState::Open && self.headers_sent,
            StreamOp::RecvHeaders => self.state == StreamState::HalfClosedLocal
                && !self.headers_received,
            StreamOp::RecvChunk => self.state == StreamState::HalfClosedLocal
                && self.headers_received,
            StreamOp::EndOfBody => self.state == StreamState::HalfClosedLocal
                && self.headers_received,
            StreamOp::Reset => self.state != StreamState::Closed,
        }
    }

    /// Attempts `op`. An operation that is out of order is refused with
    /// `OrderingViolation` and leaves the stream as it was; in particular the
    /// body cannot be read before the response headers have been received.
    pub fn apply(&mut self, op: StreamOp) -> (r: Result<(), ClientError>)
        ensures
            final(self)@ == old(self)@.step(op),
            old(self)@.permits(op) ==> r is Ok,
            !old(self)@.permits(op) ==> r == Err::<(), ClientError>(ClientError::OrderingViolation),
            !old(self)@.headers_received && (op == StreamOp::RecvChunk || op == StreamOp::EndOfBody)
                ==> r == Err::<(), ClientError>(ClientError::OrderingViolation),
            old(self)@.wf() ==> final(self)@.wf(),
    {
        if !self.permits(op) {
            return Err(ClientError::OrderingViolation);
        }
        match op {
            StreamOp::SendHeaders => {
                self.headers_sent = true;
            },
            StreamOp::SendBody => {},
            StreamOp::Finish => {
                self.state = StreamState::HalfClosedLocal;
            },
            StreamOp::RecvHeaders => {
                self.headers_received = true;
            },
            StreamOp::RecvChunk => {},
            StreamOp::EndOfBody => {
                self.state = StreamState::Closed;
            },
            StreamOp::Reset => {
                self.state = StreamState::Closed;
            },
        }
        Ok(())
    }
}

/// Every stream that began fresh is well-formed, whatever was attempted on it.
pub proof fn law_stream_wf(id: nat, ops: Seq<StreamOp>)
    ensures
        StreamView::fresh(id).run(ops).wf(),
        StreamView::fresh(id).run(ops).id == id,
    decreases ops.len(),
{
    if ops.len() > 0 {
        law_stream_wf(id, ops.drop_last());
    }
}

/// A stream only moves forward: Open, then HalfClosedLocal, then Closed; and a
/// closed stream accepts nothing.
pub proof fn law_stream_advances(v: StreamView, op: StreamOp)
    ensures
        v.rank() <= v.step(op).rank(),
        v.state == StreamState::Closed ==> !v.permits(op) && v.step(op) == v,
{
}

/// Reading the body before the response headers is refused in every state.
pub proof fn law_body_needs_headers(v: StreamView, op: StreamOp)
    requires
        !v.headers_received,
        op == StreamOp::RecvChunk || op == StreamOp::EndOfBody,
    ensures
        !v.permits(op),
        v.step(op) == v,
{
}

/// In every trace from a fresh stream, an accepted operation was preceded by
/// the accepted operation that must come before it: body and finish by the
/// request headers, response headers by finish, and response body by the
/// response headers.
pub proof fn law_stream_order(id: nat, ops: Seq<StreamOp>, i: int)
    requires
        StreamView::fresh(id).accepted(ops, i),
    ensures
        ops[i] == StreamOp::SendBody || ops[i] == StreamOp::Finish ==> exists|j: int|
            0 <= j < i && ops[j] == StreamOp::SendHeaders && #[trigger] StreamView::fresh(
                id,
            ).accepted(ops, j),
        ops[i] == StreamOp::RecvHeaders ==> exists|j: int|
            0 <= j < i && ops[j] == StreamOp::Finish && #[trigger] StreamView::fresh(id).accepted(
                ops,
                j,
            ),
        ops[i] == StreamOp::RecvChunk || ops[i] == StreamOp::EndOfBody ==> exists|j: int|
            0 <= j < i && ops[j] == StreamOp::RecvHeaders && #[trigger] StreamView::fresh(
                id,
            ).accepted(ops, j),
{
    let fresh = StreamView::fresh(id);
    let before = fresh.run(ops.take(i));
    lemma_flag_origin(fresh, ops.take(i));
    assert forall|j: int| 0 <= j < i implies ops.take(i).take(j) == ops.take(j) && ops.take(i)[j]
        == ops[j] by {}
    if before.headers_sent {
        let j = choose|j: int| fresh.accepted(ops.take(i), j) && ops.take(i)[j] == StreamOp::SendHeaders;
        assert(ops.take(i).take(j) == ops.take(j));
        assert(fresh.accepted(ops, j));
    }
    if before.state != StreamState::Open {
        let j = choose|j: int| fresh.accepted(ops.take(i), j) && (ops.take(i)[j] == StreamOp::Finish
            || ops.take(i)[j] == StreamOp::Reset);
        assert(ops.take(i).take(j) == ops.take(j));
        assert(fresh.accepted(ops, j));
        if before.state == StreamState::HalfClosedLocal {
            lemma_half_closed_by_finish(fresh, ops.take(i));
            let k = choose|k: int| fresh.accepted(ops.take(i), k) && ops.take(i)[k] == StreamOp::Finish;
            assert(ops.take(i).take(k) == ops.take(k));
            assert(fresh.accepted(ops, k));
        }
    }
    if before.headers_received {
        let j = choose|j: int| fresh.accepted(ops.take(i), j) && ops.take(i)[j] == StreamOp::RecvHeaders;
        assert(ops.take(i).take(j) == ops.take(j));
        assert(fresh.accepted(ops, j));
    }
}

/// Each flag of a stream was set by an accepted operation of the trace.
proof fn lemma_flag_origin(start: StreamView, ops: Seq<StreamOp>)
    requires
        start == StreamView::fresh(start.id),
    ensures
        start.run(ops).headers_sent ==> exists|j: int| #[trigger]
            start.accepted(ops, j) && ops[j] == StreamOp::SendHeaders,
        start.run(ops).headers_received ==> exists|j: int| #[trigger]
            start.accepted(ops, j) && ops[j] == StreamOp::RecvHeaders,
        start.run(ops).state != StreamState::Open ==> exists|j: int| #[trigger]
            start.accepted(ops, j) && (ops[j] == StreamOp::Finish || ops[j] == StreamOp::Reset),
    decreases ops.len(),
{
    if ops.len() > 0 {
        let head = ops.drop_last();
        let last = ops.len() - 1;
        lemma_flag_origin(start, head);
        assert(ops.take(last) == head);
        assert forall|j: int| start.accepted(head, j) implies start.accepted(ops, j) && ops[j]
            == head[j] by {
            assert(head.take(j) == ops.take(j));
        }
        let prev = start.run(head);
        let now = start.run(ops);
        if now.headers_sent {
            if prev.headers_sent {
                let j = choose|j: int| start.accepted(head, j) && head[j] == StreamOp::SendHeaders;
                assert(start.accepted(ops, j) && ops[j] == StreamOp::SendHeaders);
            } else {
                assert(start.accepted(ops, last) && ops[last] == StreamOp::SendHeaders);
            }
        }
        if now.headers_received {
            if prev.headers_received {
                let j = choose|j: int| start.accepted(head, j) && head[j] == StreamOp::RecvHeaders;
                assert(start.accepted(ops, j) && ops[j] == StreamOp::RecvHeaders);
            } else {
                assert(start.accepted(ops, last) && ops[last] == StreamOp::RecvHeaders);
            }
        }
        if now.state != StreamState::Open {
            if prev.state != StreamState::Open {
                let j = choose|j: int| start.accepted(head, j) && (head[j] == StreamOp::Finish
                    || head[j] == StreamOp::Reset);
                assert(start.accepted(ops, j) && (ops[j] == StreamOp::Finish || ops[j]
                    == StreamOp::Reset));
            } else {
                assert(start.accepted(ops, last) && (ops[last] == StreamOp::Finish || ops[last]
                    == StreamOp::Reset));
            }
        }
    }
}

/// A stream that is half-closed got there by an accepted finish.
proof fn lemma_half_closed_by_finish(start: StreamView, ops: Seq<StreamOp>)
    requires
        start == StreamView::fresh(start.id),
    ensures
        start.run(ops).state == StreamState::HalfClosedLocal ==> exists|j: int| #[trigger]
            start.accepted(ops, j) && ops[j] == StreamOp::Finish,
    decreases ops.len(),
{
    if ops.len() > 0 {
        let head = ops.drop_last();
        let last = ops.len() - 1;
        lemma_half_closed_by_finish(start, head);
        assert(ops.take(last) == head);
        assert forall|j: int| start.accepted(head, j) implies start.accepted(ops, j) && ops[j]
            == head[j] by {
            assert(head.take(j) == ops.take(j));
        }
        let prev = start.run(head);
        if start.run(ops).state == StreamState::HalfClosedLocal {
            if prev.state == StreamState::HalfClosedLocal {
                let j = choose|j: int| start.accepted(head, j) && head[j] == StreamOp::Finish;
                assert(start.accepted(ops, j) && ops[j] == StreamOp::Finish);
            } else {
                assert(start.accepted(ops, last) && ops[last] == StreamOp::Finish);
            }
        }
    }
}

} // verus!
