//! Request driver: the per-request top level. It owns exactly one phase at a
//! time — running the start chain, driving the handler, running the finish
//! chain, replying with a precomputed error, or bypassing the chain entirely
//! when it is empty — and multiplexes the transport layer's two polling entry
//! points into that single active phase.

use vstd::prelude::*;
use std::rc::Rc;
use crate::types::{Async, Handler, HookError, Middleware, Payload, Request, Response, Task, Writer};
use crate::chain::chain_ref;
use crate::finish::Finish;
use crate::handle::Handle;
use crate::start::{Start, StartResult};

verus! {

/// The phases of one request. `Idle` is a transient placeholder used only
/// while a transition moves the active phase out; it is never observable
/// between calls (well-formedness excludes it). The bypass phase `Task`
/// carries the ghost count of handler invocations made for this request:
/// exactly one, made when the phase was built.
pub enum PipelineState<M: Middleware, T, H> {
    Idle,
    Starting(Start<M, H>),
    Handle(Handle<M, T>),
    Finishing(Finish<M>),
    Error(T, Request),
    Task(T, Request, Ghost<int>),
}

/// One request's driver, created per accepted request and destroyed once
/// terminal completion is reported. Phases advance monotonically
/// (start, handle, finish); an empty chain and a precomputed error reply
/// bypass the chain phases entirely.
pub struct Pipeline<M: Middleware, T, H>(pub PipelineState<M, T, H>);

impl<M: Middleware, T, H> Pipeline<M, T, H> {
    /// Exactly one phase is active and its runner is well-formed; the
    /// transient placeholder never leaks out of a transition.
    pub open spec fn wf(&self) -> bool {
        match self.0 {
            PipelineState::Idle => false,
            PipelineState::Starting(s) => s.wf(),
            PipelineState::Handle(h) => h.wf(),
            PipelineState::Finishing(f) => f.wf(),
            PipelineState::Error(_, _) => true,
            PipelineState::Task(_, _, calls) => calls@ == 1,
        }
    }

    /// The chain phases, in the order they are passed through.
    pub open spec fn rank(&self) -> int {
        match self.0 {
            PipelineState::Starting(_) => 3,
            PipelineState::Handle(_) => 2,
            _ => 1,
        }
    }

    /// Whether the driver is in one of the chain phases (as opposed to the
    /// two bypass fast paths).
    pub open spec fn is_chain_phase(&self) -> bool {
        self.0 is Starting || self.0 is Handle || self.0 is Finishing
    }
}

impl<M: Middleware, T: Task<M>, H: Handler<T>> Pipeline<M, T, H> {
    /// Starts driving one request through the middleware chain. An empty
    /// chain invokes the handler at once and bypasses the chain phases
    /// entirely — including, on completion, the finish phase.
    pub fn new(req: Request, payload: Payload, mw: Rc<Vec<M>>, handler: H) -> (r: Pipeline<
        M,
        T,
        H,
    >)
        ensures
            r.wf(),
            mw@.len() == 0 ==> (r.0 matches PipelineState::Task(t, q, calls) && calls@ == 1),
            mw@.len() >= 1 ==> r.0 is Starting || r.0 is Handle,
            r.0 matches PipelineState::Starting(s) ==> s.middlewares@ == mw@ && !s.disconnected,
            r.0 matches PipelineState::Handle(h) ==> h.middlewares@ == mw@ && !h.disconnected,
    {
        let mut req = req;
        if chain_ref(&mw).len() == 0 {
            // The handler runs exactly once, here, consuming the token.
            let task = handler.handle(&mut req, payload);
            Pipeline(PipelineState::Task(task, req, Ghost(1)))
        } else {
            match Start::init(mw, req, handler, payload) {
                StartResult::Ready(h) => Pipeline(PipelineState::Handle(h)),
                StartResult::NotReady(s) => Pipeline(PipelineState::Starting(s)),
            }
        }
    }

    /// A driver that replies with a precomputed response, used when request
    /// construction itself failed; it bypasses the start and finish chains.
    pub fn error(resp: Response) -> (r: Pipeline<M, T, H>)
        ensures
            r.wf(),
            r.0 is Error,
    {
        Pipeline(PipelineState::Error(T::reply(resp), Request::for_error()))
    }

    /// Observes a peer disconnection. While the start chain runs the signal
    /// is only recorded (the handler unit does not exist yet); in the
    /// handler phase it is forwarded to the unit, exactly once even across
    /// repeated calls. No middleware hook is invoked by this call: the
    /// invocation logs, the chain and the traversal position are unchanged.
    pub fn disconnected(&mut self)
        requires
            old(self).wf(),
        ensures
            final(self).wf(),
            old(self).0 matches PipelineState::Starting(s0) ==> (final(self).0
                matches PipelineState::Starting(s) && s.disconnected && s.idx == s0.idx && s.fut
                == s0.fut && s.payload == s0.payload && s.middlewares@ == s0.middlewares@
                && s.started@ == s0.started@),
            old(self).0 matches PipelineState::Handle(h0) ==> (final(self).0
                matches PipelineState::Handle(h) && h.disconnected && h.notices@ == 1 && h.idx
                == h0.idx && h.tag@ == h0.tag@ && h.started@ == h0.started@ && h.middlewares@
                == h0.middlewares@ && h.handler_calls@ == h0.handler_calls@),
            !(old(self).0 is Starting || old(self).0 is Handle) ==> *final(self) == *old(self),
    {
        match &mut self.0 {
            PipelineState::Starting(s) => s.disconnected(),
            PipelineState::Handle(h) => h.disconnected(),
            _ => (),
        }
    }

    /// Drives response-body writing. Only the phases that hold a handler
    /// unit (handling, replying, bypassing) have anything to write; the
    /// start and finish phases report "nothing to write". When the unit
    /// reports its body fully written, the driver moves to the finish chain
    /// and reports that the request as a whole is not yet done.
    pub fn poll_io<W: Writer>(&mut self, io: &mut W) -> (r: Result<Async<bool>, ()>)
        requires
            old(self).wf(),
        ensures
            final(self).wf(),
            (old(self).0 is Starting || old(self).0 is Finishing) ==> *final(self) == *old(self)
                && (r matches Ok(Async::NotReady)),
            old(self).0 is Task ==> final(self).0 is Task,
            old(self).0 is Error ==> final(self).0 is Error,
            old(self).0 matches PipelineState::Handle(h) ==> ((final(self).0
                matches PipelineState::Handle(h2) && h2.tag@ == h.tag@ && h2.started@ == h.started@
                && h2.disconnected == h.disconnected) || (final(self).0
                matches PipelineState::Finishing(f) && f.tag@ == h.tag@ && f.started@ == h.started@
                && !f.done && (r matches Ok(Async::Ready(b)) && !b))),
    {
        let mut cur = PipelineState::Idle;
        core::mem::swap(&mut self.0, &mut cur);
        match cur {
            PipelineState::Task(mut t, mut req, calls) => {
                let res = t.poll_io(io, &mut req);
                self.0 = PipelineState::Task(t, req, calls);
                res
            },
            PipelineState::Error(mut t, mut req) => {
                let res = t.poll_io(io, &mut req);
                self.0 = PipelineState::Error(t, req);
                res
            },
            PipelineState::Starting(s) => {
                self.0 = PipelineState::Starting(s);
                Ok(Async::NotReady)
            },
            PipelineState::Finishing(f) => {
                self.0 = PipelineState::Finishing(f);
                Ok(Async::NotReady)
            },
            PipelineState::Handle(mut h) => {
                match h.poll_io(io) {
                    Ok(Async::Ready(true)) => {
                        self.0 = PipelineState::Finishing(h.finish());
                        Ok(Async::Ready(false))
                    },
                    res => {
                        self.0 = PipelineState::Handle(h);
                        res
                    },
                }
            },
            PipelineState::Idle => {
                proof {
                    assert(false);
                }
                self.0 = PipelineState::Idle;
                Ok(Async::NotReady)
            },
        }
    }

    /// Drives the active phase toward completion: resolves a pending start
    /// chain into the handler phase, resolves handler completion — success
    /// and failure alike, so cleanup always runs — into the finish chain,
    /// and resolves finish-chain completion into terminal. Returns
    /// `Ready(())` once the active phase is terminal; a driver already at
    /// the terminal cleanup state reports `Ready(())` unchanged. A chain
    /// phase never reports an error: no failure crosses a phase boundary.
    pub fn poll(&mut self) -> (r: Result<Async<()>, HookError>)
        requires
            old(self).wf(),
        ensures
            final(self).wf(),
            old(self).0 is Task ==> final(self).0 is Task,
            old(self).0 is Error ==> final(self).0 is Error,
            old(self).is_chain_phase() ==> final(self).is_chain_phase() && final(self).rank()
                <= old(self).rank(),
            old(self).is_chain_phase() ==> !(r is Err),
            (old(self).is_chain_phase() && (r matches Ok(Async::Ready(u)))) ==> (final(self).0
                matches PipelineState::Finishing(f) && f.done),
            (old(self).0 matches PipelineState::Finishing(f0) && f0.done) ==> ((r matches Ok(
                Async::Ready(u),
            )) && *final(self) == *old(self)),
            old(self).0 matches PipelineState::Handle(h0) ==> ((final(self).0
                matches PipelineState::Handle(h2) && h2.tag@ == h0.tag@ && h2.started@
                == h0.started@ && h2.disconnected == h0.disconnected) || (final(self).0
                matches PipelineState::Finishing(f) && f.tag@ == h0.tag@ && f.started@
                == h0.started@)),
    {
        loop
            invariant
                self.wf(),
                old(self).0 is Task ==> self.0 is Task,
                old(self).0 is Error ==> self.0 is Error,
                old(self).is_chain_phase() ==> self.is_chain_phase() && self.rank() <= old(
                    self,
                ).rank(),
                (old(self).0 matches PipelineState::Finishing(f0) && f0.done) ==> self.0 == old(
                    self,
                ).0,
                old(self).0 matches PipelineState::Handle(h0) ==> ((self.0
                    matches PipelineState::Handle(h2) && h2.tag@ == h0.tag@ && h2.started@
                    == h0.started@ && h2.disconnected == h0.disconnected) || (self.0
                    matches PipelineState::Finishing(f) && f.tag@ == h0.tag@ && f.started@
                    == h0.started@)),
            decreases self.rank(),
        {
            let mut cur = PipelineState::Idle;
            core::mem::swap(&mut self.0, &mut cur);
            match cur {
                PipelineState::Starting(mut s) => {
                    match s.poll() {
                        Async::NotReady => {
                            self.0 = PipelineState::Starting(s);
                            return Ok(Async::NotReady);
                        },
                        Async::Ready(h) => {
                            self.0 = PipelineState::Handle(h);
                        },
                    }
                },
                PipelineState::Handle(mut h) => {
                    match h.poll() {
                        Ok(Async::NotReady) => {
                            self.0 = PipelineState::Handle(h);
                            return Ok(Async::NotReady);
                        },
                        Ok(Async::Ready(())) => {
                            self.0 = PipelineState::Finishing(h.finish());
                        },
                        Err(_) => {
                            // Handler failure does not abort cleanup: the
                            // finish chain runs exactly as on success. This
                            // policy is deliberate and documented.
                            self.0 = PipelineState::Finishing(h.finish());
                        },
                    }
                },
                PipelineState::Finishing(mut f) => {
                    let res = f.poll();
                    self.0 = PipelineState::Finishing(f);
                    return match res {
                        Async::NotReady => Ok(Async::NotReady),
                        Async::Ready(()) => Ok(Async::Ready(())),
                    };
                },
                PipelineState::Task(mut t, req, calls) => {
                    let res = t.poll();
                    self.0 = PipelineState::Task(t, req, calls);
                    return res;
                },
                PipelineState::Error(mut t, req) => {
                    let res = t.poll();
                    self.0 = PipelineState::Error(t, req);
                    return res;
                },
                PipelineState::Idle => {
                    proof {
                        assert(false);
                    }
                    self.0 = PipelineState::Idle;
                    return Ok(Async::NotReady);
                },
            }
        }
    }
}

} // verus!
