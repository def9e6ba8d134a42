//! Value types and capability traits consumed by the pipeline.
//!
//! The pipeline is a library-level state machine: parsing, transport I/O and
//! the handler's own work live behind these narrow interfaces. A middleware
//! hook or a handler unit may suspend by returning a pending operation; the
//! pipeline stores it and polls it again when re-driven.

use vstd::prelude::*;

verus! {

/// Readiness of a cooperative, resumable step.
pub enum Async<T> {
    NotReady,
    Ready(T),
}

/// Context for one HTTP request, exclusively owned by its pipeline.
/// It moves between phases by value, never by a reference that must
/// survive a suspension point.
pub struct Request {
    /// Identifies the request to the transport layer.
    pub id: u64,
    /// Extension slots a middleware may tag on the way through.
    pub extensions: Vec<u64>,
}

impl Request {
    /// A placeholder context for replying with a precomputed error
    /// when no real request could be constructed.
    pub fn for_error() -> (r: Request)
        ensures
            r.id == 0,
            r.extensions@ == Seq::<u64>::empty(),
    {
        Request { id: 0, extensions: Vec::new() }
    }
}

/// A response value: produced by a middleware short-circuit or by the
/// handler, and rewritable by each response hook on the way out.
pub struct Response {
    /// HTTP status code.
    pub status: u16,
    /// Marks left by response hooks; lets a caller observe which hooks ran.
    pub tags: Vec<u64>,
}

/// One-shot ownership token for the request's body stream. The handler
/// consumes it exactly once; ownership makes a second consumption
/// unrepresentable.
pub struct Payload {
    /// Identifies the underlying stream to the transport layer.
    pub token: u64,
}

/// An error carried out of a hook's pending operation. Finish-hook errors
/// are absorbed by the pipeline; handler errors end the request.
pub struct HookError {
    /// Collaborator-defined error code.
    pub code: u64,
}

/// Outcome of handing bytes to the non-blocking byte sink.
pub enum WriteStatus {
    /// The sink cannot take bytes now; re-drive later.
    Suspended,
    /// The bytes were accepted.
    Accepted,
}

/// Non-blocking byte sink the handler unit writes the response through.
pub trait Writer {
    fn write(&mut self, data: &Vec<u8>) -> WriteStatus;
}

/// Resolution of a start hook's pending operation. The operation owns the
/// request while it is in flight and hands it back on resolution. A failure
/// carries the response to reply with: start-hook errors never propagate,
/// they become a short-circuit response.
pub enum StartPoll {
    NotReady,
    Ready(Request, Option<Response>),
    Failed(Request, Response),
}

/// A start hook's pending operation, polled by the start-chain runner.
pub trait StartFuture {
    fn poll(&mut self) -> StartPoll;
}

/// Resolution of a response hook's pending operation. A failure carries the
/// replacement response to continue with.
pub enum ResponsePoll {
    NotReady,
    Ready(Response),
    Failed(Response),
}

/// A response hook's pending operation, polled by the response-chain runner.
pub trait ResponseFuture {
    fn poll(&mut self) -> ResponsePoll;
}

/// Resolution of a finish hook's pending operation. Failures are absorbed:
/// the finish chain continues as if the hook had completed.
pub enum FinishPoll {
    NotReady,
    Ready,
    Failed(HookError),
}

/// A finish hook's pending operation, polled by the finish-chain runner.
pub trait FinishFuture {
    fn poll(&mut self) -> FinishPoll;
}

/// What a start hook returns: pass the request on, short-circuit with an
/// immediate response, or suspend into a pending operation that owns the
/// request.
pub enum Started<S> {
    Done(Request),
    Response(Request, Response),
    Future(S),
}

/// What a response hook returns: an immediate replacement response, or a
/// pending operation that will produce one.
pub enum MwResponse<R> {
    Response(Response),
    Future(R),
}

/// What a finish hook returns: immediate completion, or a pending operation.
pub enum Finished<F> {
    Done,
    Future(F),
}

/// One middleware: three independent hooks around the handler. The chain is
/// shared read-only across requests, so hooks take `&self`; a hook that needs
/// to wait returns a pending operation instead of blocking.
pub trait Middleware: Sized {
    type SFut: StartFuture;
    type RFut: ResponseFuture;
    type FFut: FinishFuture;

    fn start(&self, req: Request) -> Started<Self::SFut>;

    fn response(&self, req: &mut Request, resp: Response) -> MwResponse<Self::RFut>;

    fn finish(&self, req: &mut Request, resp: &Response) -> Finished<Self::FFut>;
}

/// The handler's execution as a resumable unit of work: it writes the
/// response body incrementally through the byte sink, signals completion,
/// and finalizes a response through an attached response-chain runner.
pub trait Task<M: Middleware>: Sized {
    /// A unit that immediately replies with a fixed response.
    fn reply(resp: Response) -> Self;

    /// Drives body writing against the sink: suspended, more to write, or
    /// fully written (`Ready(true)`). An error is a hard stop.
    fn poll_io<W: Writer>(&mut self, io: &mut W, req: &mut Request) -> Result<Async<bool>, ()>;

    /// Drives completion: done, not yet, or failed.
    fn poll(&mut self) -> Result<Async<()>, HookError>;

    /// Observes a peer disconnection: no further writes should be produced.
    fn disconnected(&mut self);

    /// Finalizes and hands out the produced response.
    fn response(&mut self) -> Response;

    /// Attaches the response-chain runner the unit drives while finalizing
    /// its output.
    fn set_middlewares(&mut self, mw: crate::response::MiddlewaresResponse<M>);
}

/// The request handler: invoked exactly once per request, consuming the
/// one-shot body-stream token and producing the unit of work that yields
/// the response.
pub trait Handler<T> {
    fn handle(&self, req: &mut Request, payload: Payload) -> T;
}

} // verus!
