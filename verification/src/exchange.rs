//! One request/response exchange over one stream.
//!
//! The exchange decides; the caller does the I/O. At each point the exchange
//! names the operation that is due (`ExchangeAction`); the caller performs it
//! and reports what came of it (`ExchangeEvent`); the exchange moves on and
//! names the next. The order is fixed: request headers, the body if there is
//! one, end of the send side, response headers, then body chunks until the
//! stream says there are no more.

use vstd::prelude::*;
use crate::error::{ClientError, StreamFault};
use crate::message::{chunk_views, header_views, Request, RequestView, Response, ResponseView};
use crate::stream::{Stream, StreamOp, StreamState, StreamView};

verus! {

/// Which step of an exchange is due.
#[derive(Clone, Copy, Debug, PartialEq, Eq, Structural)]
pub enum ExchangePhase {
    SendingHeaders,
    SendingBody,
    Finishing,
    AwaitingHeaders,
    ReceivingBody,
    Completed,
    Failed,
}

/// The operation the caller is to perform next.
#[derive(Clone, Copy, Debug, PartialEq, Eq, Structural)]
pub enum ExchangeAction {
    SendHeaders,
    SendBody,
    Finish,
    RecvHeaders,
    RecvChunk,
    /// The response is complete; take it with `finish`.
    Done,
    /// The exchange failed; take the error with `finish`.
    Abort,
}

/// What came of the operation the caller performed.
#[derive(Debug)]
pub enum ExchangeEvent {
    /// The send operation that was due has been carried out.
    Sent,
    /// The response's status and headers arrived.
    Headers { status: u16, headers: Vec<(String, String)> },
    /// One more chunk of the response body arrived.
    Chunk(Vec<u8>),
    /// The stream signalled that the body is complete.
    EndOfBody,
    /// The stream or its connection failed.
    Fault(StreamFault),
}

/// The mathematical model of an exchange.
pub struct ExchangeView {
    pub phase: ExchangePhase,
    pub stream: StreamView,
    pub request: RequestView,
    /// The response so far: nothing before its headers, then the chunks received.
    pub response: Option<ResponseView>,
    pub error: Option<ClientError>,
}

impl ExchangeView {
    /// An exchange that is about to send `request` on `stream`.
    pub open spec fn started(request: RequestView, stream: StreamView) -> ExchangeView {
        ExchangeView {
            phase: ExchangePhase::SendingHeaders,
            stream,
            request,
            response: None,
            error: None,
        }
    }

    /// Whether the exchange has completed or failed.
    pub open spec fn terminal(self) -> bool {
        self.phase == ExchangePhase::Completed || self.phase == ExchangePhase::Failed
    }

    /// The operation that is due in this phase.
    pub open spec fn pending(self) -> ExchangeAction {
        match self.phase {
            ExchangePhase::SendingHeaders => ExchangeAction::SendHeaders,
            ExchangePhase::SendingBody => ExchangeAction::SendBody,
            ExchangePhase::Finishing => ExchangeAction::Finish,
            ExchangePhase::AwaitingHeaders => ExchangeAction::RecvHeaders,
            ExchangePhase::ReceivingBody => ExchangeAction::RecvChunk,
            ExchangePhase::Completed => ExchangeAction::Done,
            ExchangePhase::Failed => ExchangeAction::Abort,
        }
    }

    /// What `event` does to the stream in this phase; `None` where the event
    /// does not answer the operation that was due.
    pub open spec fn stream_op(self, event: ExchangeEvent) -> Option<StreamOp> {
        match (self.phase, event) {
            (ExchangePhase::SendingHeaders, ExchangeEvent::Sent) => Some(StreamOp::SendHeaders),
            (ExchangePhase::SendingBody, ExchangeEvent::Sent) => Some(StreamOp::SendBody),
            (ExchangePhase::Finishing, ExchangeEvent::Sent) => Some(StreamOp::Finish),
            (ExchangePhase::AwaitingHeaders, ExchangeEvent::Headers { .. }) => Some(
                StreamOp::RecvHeaders,
            ),
            (ExchangePhase::ReceivingBody, ExchangeEvent::Chunk(_)) => Some(StreamOp::RecvChunk),
            (ExchangePhase::ReceivingBody, ExchangeEvent::EndOfBody) => Some(StreamOp::EndOfBody),
            _ => None,
        }
    }

    /// The error a fault amounts to: `StreamIOError` while the body is read,
    /// `ResponseError` before the response headers have arrived.
    pub open spec fn fault_error(self, fault: StreamFault) -> ClientError {
        if self.phase == ExchangePhase::ReceivingBody {
            ClientError::StreamIOError(fault)
        } else {
            ClientError::ResponseError(fault)
        }
    }

    /// The failure that `event` causes in this phase, if it causes one.
    pub open spec fn verdict(self, event: ExchangeEvent) -> Option<ClientError> {
        match event {
            ExchangeEvent::Fault(fault) => Some(self.fault_error(fault)),
            _ => match self.stream_op(event) {
                Some(op) => if self.stream.permits(op) {
                    None
                } else {
                    Some(ClientError::OrderingViolation)
                },
                None => Some(ClientError::OrderingViolation),
            },
        }
    }

    /// The phase after an event that was in order.
    pub open spec fn next_phase(self, event: ExchangeEvent) -> ExchangePhase {
        match event {
            ExchangeEvent::Sent => match self.phase {
                ExchangePhase::SendingHeaders => if self.request.body is Some {
                    ExchangePhase::SendingBody
                } else {
                    ExchangePhase::Finishing
                },
                ExchangePhase::SendingBody => ExchangePhase::Finishing,
                _ => ExchangePhase::AwaitingHeaders,
            },
            ExchangeEvent::Headers { .. } => ExchangePhase::ReceivingBody,
            ExchangeEvent::EndOfBody => ExchangePhase::Completed,
            _ => self.phase,
        }
    }

    /// The response after an event that was in order.
    pub open spec fn next_response(self, event: ExchangeEvent) -> Option<ResponseView> {
        match event {
            ExchangeEvent::Headers { status, headers } => Some(
                ResponseView { status, headers: header_views(headers@), chunks: Seq::empty() },
            ),
            ExchangeEvent::Chunk(bytes) => match self.response {
                Some(r) => Some(ResponseView { chunks: r.chunks.push(bytes@), ..r }),
                None => None,
            },
            _ => self.response,
        }
    }

    /// The exchange after it failed with `e`: its stream is reset.
    pub open spec fn failed(self, e: ClientError) -> ExchangeView {
        ExchangeView {
            phase: ExchangePhase::Failed,
            stream: self.stream.step(StreamOp::Reset),
            error: Some(e),
            ..self
        }
    }

    /// The exchange after `event`. A finished exchange stays as it is.
    pub open spec fn step(self, event: ExchangeEvent) -> ExchangeView {
        if self.terminal() {
            self
        } else {
            match self.verdict(event) {
                Some(e) => self.failed(e),
                None => ExchangeView {
                    phase: self.next_phase(event),
                    stream: self.stream.after(self.stream_op(event)->Some_0),
                    response: self.next_response(event),
                    ..self
                },
            }
        }
    }

    /// What the caller is told after `event`: the operation due next, or the
    /// error. A finished exchange answers every event with `OrderingViolation`.
    pub open spec fn reply(self, event: ExchangeEvent) -> Result<ExchangeAction, ClientError> {
        if self.terminal() {
            Err(ClientError::OrderingViolation)
        } else {
            match self.verdict(event) {
                Some(e) => Err(e),
                None => Ok(self.step(event).pending()),
            }
        }
    }

    /// The exchange after every event of `events` in turn.
    pub open spec fn run(self, events: Seq<ExchangeEvent>) -> ExchangeView
        decreases events.len(),
    {
        if events.len() == 0 {
            self
        } else {
            self.run(events.drop_last()).step(events.last())
        }
    }

    /// What the exchange yields when it is taken apart: the response once
    /// complete, the error once failed, `Cancelled` when given up half-way.
    pub open spec fn outcome(self) -> Result<ResponseView, ClientError> {
        match self.phase {
            ExchangePhase::Completed => match self.response {
                Some(r) => Ok(r),
                None => Err(ClientError::OrderingViolation),
            },
            ExchangePhase::Failed => match self.error {
                Some(e) => Err(e),
                None => Err(ClientError::OrderingViolation),
            },
            _ => Err(ClientError::Cancelled),
        }
    }

    /// What holds of every exchange that started on a fresh stream.
    pub open spec fn wf(self) -> bool {
        &&& self.stream.wf()
        &&& self.error is Some <==> self.phase == ExchangePhase::Failed
        &&& match self.phase {
            ExchangePhase::SendingHeaders => self.stream.state == StreamState::Open
                && !self.stream.headers_sent && self.response is None,
            ExchangePhase::SendingBody => self.stream.state == StreamState::Open
                && self.stream.headers_sent && self.response is None && self.request.body is Some,
            ExchangePhase::Finishing => self.stream.state == StreamState::Open
                && self.stream.headers_sent && self.response is None,
            ExchangePhase::AwaitingHeaders => self.stream.state == StreamState::HalfClosedLocal
                && !self.stream.headers_received && self.response is None,
            ExchangePhase::ReceivingBody => self.stream.state == StreamState::HalfClosedLocal
                && self.stream.headers_received && self.response is Some,
            ExchangePhase::Completed => self.stream.state == StreamState::Closed
                && self.response is Some,
            ExchangePhase::Failed => self.stream.state == StreamState::Closed,
        }
    }
}

/// An exchange as the client holds it, together with its stream, its request
/// and what has arrived of the response. Its model is `ExchangeView`.
#[derive(Debug)]
pub struct Exchange {
    phase: ExchangePhase,
    stream: Stream,
    request: Request,
    head: Option<(u16, Vec<(String, String)>)>,
    chunks: Vec<Vec<u8>>,
    error: Option<ClientError>,
}

impl View for Exchange {
    type V = ExchangeView;

    closed spec fn view(&self) -> ExchangeView {
        ExchangeView {
            phase: self.phase,
            stream: self.stream@,
            request: self.request@,
            response: match self.head {
                Some((status, headers)) => Some(
                    ResponseView {
                        status,
                        headers: header_views(headers@),
                        chunks: chunk_views(self.chunks@),
                    },
                ),
                None => None,
            },
            error: self.error,
        }
    }
}

impl Exchange {
    /// An exchange that is about to send `request` on `stream`.
    pub fn start(request: Request, stream: Stream) -> (x: Exchange)
        ensures
            x@ == ExchangeView::started(request@, stream@),
            stream@ == StreamView::fresh(stream@.id) ==> x@.wf(),
    {
        Exchange {
            phase: ExchangePhase::SendingHeaders,
            stream,
            request,
            head: None,
            chunks: Vec::new(),
            error: None,
        }
    }

    pub fn phase(&self) -> (p: ExchangePhase)
        ensures
            p == self@.phase,
    {
        self.phase
    }

    pub fn request(&self) -> (r: &Request)
        ensures
            r@ == self@.request,
    {
        &self.request
    }

    pub fn stream(&self) -> (s: &Stream)
        ensures
            s@ == self@.stream,
    {
        &self.stream
    }

    pub fn error(&self) -> (e: Option<ClientError>)
        ensures
            e == self@.error,
    {
        self.error
    }

    pub fn is_terminal(&self) -> (b: bool)
        ensures
            b == self@.terminal(),
    {
        self.phase == ExchangePhase::Completed || self.phase == ExchangePhase::Failed
    }

    /// The operation that is due now.
    pub fn next_action(&self) -> (a: ExchangeAction)
        ensures
            a == self@.pending(),
    {
        match self.phase {
            ExchangePhase::SendingHeaders => ExchangeAction::SendHeaders,
            ExchangePhase::SendingBody => ExchangeAction::SendBody,
            ExchangePhase::Finishing => ExchangeAction::Finish,
            ExchangePhase::AwaitingHeaders => ExchangeAction::RecvHeaders,
            ExchangePhase::ReceivingBody => ExchangeAction::RecvChunk,
            ExchangePhase::Completed => ExchangeAction::Done,
            ExchangePhase::Failed => ExchangeAction::Abort,
        }
    }

    fn stream_op(&self, event: &ExchangeEvent) -> (op: Option<StreamOp>)
        ensures
            op == self@.stream_op(*event),
    {
        match event {
            ExchangeEvent::Sent => match self.phase {
                ExchangePhase::SendingHeaders => Some(StreamOp::SendHeaders),
                ExchangePhase::SendingBody => Some(StreamOp::SendBody),
                ExchangePhase::Finishing => Some(StreamOp::Finish),
                _ => None,
            },
            ExchangeEvent::Headers { .. } => match self.phase {
                ExchangePhase::AwaitingHeaders => Some(StreamOp::RecvHeaders),
                _ => None,
            },
            ExchangeEvent::Chunk(_) => match self.phase {
                ExchangePhase::ReceivingBody => Some(StreamOp::RecvChunk),
                _ => None,
            },
            ExchangeEvent::EndOfBody => match self.phase {
                ExchangePhase::ReceivingBody => Some(StreamOp::EndOfBody),
                _ => None,
            },
            ExchangeEvent::Fault(_) => None,
        }
    }

    fn fail(&mut self, e: ClientError)
        ensures
            final(self)@ == old(self)@.failed(e),
    {
        let _ = self.stream.apply(StreamOp::Reset);
        self.phase = ExchangePhase::Failed;
        self.error = Some(e);
    }

    /// Takes in what came of the operation that was due, and names the next
    /// one. An event that does not answer the operation that was due (a body
    /// chunk before the response headers, say) fails the exchange with
    /// `OrderingViolation`; a fault fails it with `ResponseError` before the
    /// response headers and with `StreamIOError` after them. A failed exchange
    /// has reset its stream.
    pub fn on_event(&mut self, event: ExchangeEvent) -> (r: Result<ExchangeAction, ClientError>)
        ensures
            final(self)@ == old(self)@.step(event),
            r == old(self)@.reply(event),
            old(self)@.wf() ==> final(self)@.wf(),
    {
        if self.is_terminal() {
            return Err(ClientError::OrderingViolation);
        }
        if let ExchangeEvent::Fault(fault) = event {
            let e = if self.phase == ExchangePhase::ReceivingBody {
                ClientError::StreamIOError(fault)
            } else {
                ClientError::ResponseError(fault)
            };
            self.fail(e);
            return Err(e);
        }
        let due = self.stream_op(&event);
        let in_order = match due {
            Some(op) => self.stream.apply(op).is_ok(),
            None => false,
        };
        if !in_order {
            self.fail(ClientError::OrderingViolation);
            return Err(ClientError::OrderingViolation);
        }
        match event {
            ExchangeEvent::Sent => {
                self.phase = match self.phase {
                    ExchangePhase::SendingHeaders => if self.request.has_body() {
                        ExchangePhase::SendingBody
                    } else {
                        ExchangePhase::Finishing
                    },
                    ExchangePhase::SendingBody => ExchangePhase::Finishing,
                    _ => ExchangePhase::AwaitingHeaders,
                };
            },
            ExchangeEvent::Headers { status, headers } => {
                self.head = Some((status, headers));
                self.chunks = Vec::new();
                self.phase = ExchangePhase::ReceivingBody;
                proof {
                    assert(chunk_views(self.chunks@) == Seq::<Seq<u8>>::empty());
                }
            },
            ExchangeEvent::Chunk(bytes) => {
                proof {
                    assert(chunk_views(self.chunks@.push(bytes)) == chunk_views(self.chunks@).push(
                        bytes@,
                    ));
                }
                self.chunks.push(bytes);
            },
            ExchangeEvent::EndOfBody => {
                self.phase = ExchangePhase::Completed;
            },
            ExchangeEvent::Fault(_) => {},
        }
        Ok(self.next_action())
    }

    /// Takes the exchange apart: its stream, closed, to hand back to the
    /// connection, and what the exchange came to. An exchange that is given up
    /// before it finished yields `Cancelled`, and its stream is reset.
    pub fn finish(self) -> (r: (Stream, Result<Response, ClientError>))
        ensures
            r.0@ == self@.stream.step(StreamOp::Reset),
            r.0@.state == StreamState::Closed,
            r.1 is Ok <==> self@.outcome() is Ok,
            r.1 matches Ok(response) ==> self@.outcome() == Ok::<ResponseView, ClientError>(
                response@,
            ),
            r.1 matches Err(e) ==> self@.outcome() == Err::<ResponseView, ClientError>(e),
    {
        let Exchange { phase, stream, request: _, head, chunks, error } = self;
        let mut stream = stream;
        let _ = stream.apply(StreamOp::Reset);
        let result = match phase {
            ExchangePhase::Completed => match head {
                Some((status, headers)) => Ok(Response::new(status, headers, chunks)),
                None => Err(ClientError::OrderingViolation),
            },
            ExchangePhase::Failed => match error {
                Some(e) => Err(e),
                None => Err(ClientError::OrderingViolation),
            },
            _ => Err(ClientError::Cancelled),
        };
        (stream, result)
    }
}

/// Every exchange that started on a fresh stream is well-formed, whatever
/// events it was given.
pub proof fn law_exchange_wf(request: RequestView, id: nat, events: Seq<ExchangeEvent>)
    ensures
        ExchangeView::started(request, StreamView::fresh(id)).run(events).wf(),
    decreases events.len(),
{
    if events.len() > 0 {
        law_exchange_wf(request, id, events.drop_last());
    }
}

/// An event that answers the operation that was due never fails a well-formed
/// exchange: only faults and out-of-place events do.
pub proof fn law_exchange_progress(v: ExchangeView, event: ExchangeEvent)
    requires
        v.wf(),
        !v.terminal(),
        v.stream_op(event) is Some,
    ensures
        v.verdict(event) is None,
        v.step(event).phase != ExchangePhase::Failed,
        v.reply(event) == Ok::<ExchangeAction, ClientError>(v.step(event).pending()),
{
}

/// A body chunk, or the end of the body, reported before the response headers
/// fails the exchange with `OrderingViolation`, in every phase before the
/// headers have arrived.
pub proof fn law_body_before_headers_fails(v: ExchangeView, event: ExchangeEvent)
    requires
        v.wf(),
        !v.terminal(),
        v.response is None,
        event is Chunk || event is EndOfBody,
    ensures
        v.reply(event) == Err::<ExchangeAction, ClientError>(ClientError::OrderingViolation),
        v.step(event).phase == ExchangePhase::Failed,
        v.step(event).response is None,
        v.step(event).outcome() == Err::<ResponseView, ClientError>(
            ClientError::OrderingViolation,
        ),
{
}

/// A response whose body is empty completes the exchange with a response of
/// zero chunks.
pub proof fn law_empty_body_completes(v: ExchangeView, status: u16, headers: Vec<(String, String)>)
    requires
        v.wf(),
        v.phase == ExchangePhase::AwaitingHeaders,
    ensures
        ({
            let done = v.step(ExchangeEvent::Headers { status, headers }).step(
                ExchangeEvent::EndOfBody,
            );
            &&& done.phase == ExchangePhase::Completed
            &&& done.outcome() is Ok
            &&& done.outcome()->Ok_0.status == status
            &&& done.outcome()->Ok_0.chunks.len() == 0
            &&& done.outcome()->Ok_0.body().len() == 0
        }),
{
}

/// A fault ends the exchange at once: with `StreamIOError` while the body is
/// read, with `ResponseError` before. No further event is accepted.
pub proof fn law_fault_terminates(v: ExchangeView, fault: StreamFault, later: ExchangeEvent)
    requires
        !v.terminal(),
    ensures
        v.step(ExchangeEvent::Fault(fault)).phase == ExchangePhase::Failed,
        v.step(ExchangeEvent::Fault(fault)).stream.state == StreamState::Closed,
        v.phase == ExchangePhase::ReceivingBody ==> v.reply(ExchangeEvent::Fault(fault)) == Err::<
            ExchangeAction,
            ClientError,
        >(ClientError::StreamIOError(fault)),
        v.phase != ExchangePhase::ReceivingBody ==> v.reply(ExchangeEvent::Fault(fault)) == Err::<
            ExchangeAction,
            ClientError,
        >(ClientError::ResponseError(fault)),
        v.step(ExchangeEvent::Fault(fault)).step(later) == v.step(ExchangeEvent::Fault(fault)),
{
}

/// Chunks are kept in arrival order: one more chunk event appends its bytes
/// to the response and to nothing else.
pub proof fn law_chunks_in_order(v: ExchangeView, bytes: Vec<u8>)
    requires
        v.wf(),
        v.phase == ExchangePhase::ReceivingBody,
    ensures
        v.step(ExchangeEvent::Chunk(bytes)).phase == ExchangePhase::ReceivingBody,
        v.step(ExchangeEvent::Chunk(bytes)).response->Some_0.chunks == v.response->Some_0.chunks.push(
            bytes@,
        ),
        v.step(ExchangeEvent::Chunk(bytes)).response->Some_0.status == v.response->Some_0.status,
        v.step(ExchangeEvent::Chunk(bytes)).response->Some_0.headers == v.response->Some_0.headers,
{
}

} // verus!
