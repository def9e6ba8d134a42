//! Start-chain runner: invokes middleware `start` hooks in ascending
//! registration order until all pass — then the handler is invoked exactly
//! once, consuming the one-shot body-stream token — or a hook short-circuits
//! with an immediate response. A hook may suspend into a pending operation;
//! the runner stores it and polls it again when re-driven. An error from a
//! pending operation never propagates: it becomes the short-circuit response.

use vstd::prelude::*;
use std::rc::Rc;
use crate::types::{
    Async, Handler, Middleware, Payload, Request, Response, Started, StartFuture, StartPoll, Task,
};
use crate::chain::{chain_clone, chain_ref};
use crate::handle::Handle;
use crate::order::{asc_range, lemma_asc_range_extend, seed_of, started_count};
use crate::response::MiddlewaresResponse;

verus! {

/// What constructing the start chain yields: either the handler phase is
/// ready at once, or the chain is suspended on a hook's pending operation.
pub enum StartResult<M: Middleware, T, H> {
    Ready(Handle<M, T>),
    NotReady(Start<M, H>),
}

/// The forward traversal of the middleware chain. `idx` is the hook whose
/// pending operation is stored while suspended; `started` is the ghost log
/// of hooks whose `start` was invoked, in order. The body-stream token stays
/// here until the handler consumes it.
pub struct Start<M: Middleware, H> {
    pub idx: usize,
    pub handler: H,
    pub disconnected: bool,
    pub payload: Option<Payload>,
    pub fut: Option<M::SFut>,
    pub middlewares: Rc<Vec<M>>,
    pub started: Ghost<Seq<int>>,
}

impl<M: Middleware, H> Start<M, H> {
    pub open spec fn chain_len(&self) -> int {
        self.middlewares@.len() as int
    }

    /// A suspended start chain: hook `idx` returned a pending operation
    /// (which is stored), hooks `0 ..= idx` had `start` invoked in ascending
    /// order, and the body-stream token is still unconsumed.
    pub open spec fn wf(&self) -> bool {
        &&& 1 <= self.chain_len()
        &&& (self.idx as int) < self.chain_len()
        &&& self.fut is Some
        &&& self.payload is Some
        &&& self.started@ == asc_range(self.idx as int + 1)
    }

    /// Marks the peer as disconnected; the signal reaches the handler unit
    /// once it exists.
    pub fn disconnected(&mut self)
        ensures
            final(self).disconnected,
            final(self).handler == old(self).handler,
            final(self).idx == old(self).idx,
            final(self).payload == old(self).payload,
            final(self).fut == old(self).fut,
            final(self).middlewares@ == old(self).middlewares@,
            final(self).started@ == old(self).started@,
    {
        self.disconnected = true;
    }
}

impl<M: Middleware, H> Start<M, H> {
    /// Readies a unit of work for the handler phase: forwards the pending
    /// disconnection signal (if any) and attaches a response-chain runner
    /// seeded from how far the start chain got.
    fn prepare<T: Task<M>>(&self, task: T) -> (r: T)
        requires
            1 <= self.middlewares@.len(),
            self.idx as int <= self.middlewares@.len(),
    {
        let mut task = task;
        if self.disconnected {
            task.disconnected();
        }
        task.set_middlewares(MiddlewaresResponse::new(self.idx, chain_clone(&self.middlewares)));
        task
    }

    /// Builds the handler phase for a short-circuit by the hook at the
    /// current index: the response replaces the handler's work, the handler
    /// itself never runs, and the reverse chains are seeded strictly below
    /// the short-circuiting hook.
    fn short_handle<T: Task<M>>(&self, req: Request, resp: Response) -> (h: Handle<M, T>)
        requires
            1 <= self.middlewares@.len(),
            (self.idx as int) < self.middlewares@.len(),
            self.started@ == asc_range(self.idx as int + 1),
        ensures
            h.wf(),
            h.tag@ == self.idx as int,
            h.middlewares@ == self.middlewares@,
            h.disconnected == self.disconnected,
            h.handler_calls@ == 0,
            h.started@ == self.started@,
    {
        let task = self.prepare(T::reply(resp));
        let seed = if self.idx == 0 {
            0
        } else {
            self.idx - 1
        };
        Handle {
            idx: seed,
            req,
            task,
            middlewares: chain_clone(&self.middlewares),
            disconnected: self.disconnected,
            tag: Ghost(self.idx as int),
            started: self.started,
            notices: Ghost(
                if self.disconnected {
                    1int
                } else {
                    0int
                },
            ),
            handler_calls: Ghost(0),
        }
    }
}

impl<M: Middleware, H> Start<M, H> {
    /// Runs `start` hooks forward from the current index: each passing hook
    /// advances the index; a short-circuit (immediate, resolved, or failed)
    /// ends the traversal below the hook that produced it; a hook that stays
    /// pending suspends the chain. When every hook has passed, the handler
    /// is invoked exactly once, consuming the body-stream token.
    fn start<T: Task<M>>(&mut self, req: Request) -> (r: Async<Handle<M, T>>) where
        H: Handler<T>,

        requires
            1 <= old(self).middlewares@.len(),
            old(self).fut is None,
            old(self).payload is Some,
            old(self).idx as int <= old(self).middlewares@.len(),
            old(self).started@ == asc_range(old(self).idx as int),
        ensures
            final(self).middlewares@ == old(self).middlewares@,
            final(self).disconnected == old(self).disconnected,
            r is NotReady ==> final(self).wf() && old(self).idx as int <= final(self).idx as int,
            r is NotReady ==> final(self).payload == old(self).payload,
            r matches Async::Ready(h) ==> h.wf() && h.middlewares@ == old(self).middlewares@
                && h.disconnected == old(self).disconnected,
            (r matches Async::Ready(h) && h.handler_calls@ == 0) ==> final(self).payload == old(
                self,
            ).payload,
            (r matches Async::Ready(h) && h.handler_calls@ == 1) ==> final(self).payload is None,
    {
        let mut req = req;
        loop
            invariant
                1 <= self.middlewares@.len(),
                self.fut is None,
                self.payload is Some,
                self.payload == old(self).payload,
                self.idx as int <= self.middlewares@.len(),
                self.started@ == asc_range(self.idx as int),
                self.middlewares@ == old(self).middlewares@,
                self.disconnected == old(self).disconnected,
                old(self).idx as int <= self.idx as int,
            decreases self.middlewares@.len() - self.idx,
        {
            let n = chain_ref(&self.middlewares).len();
            if self.idx >= n {
                // Full pass: every hook passed; invoke the handler exactly
                // once with the one-shot body-stream token.
                let payload = self.payload.take().unwrap();
                let task = self.handler.handle(&mut req, payload);
                let task = self.prepare(task);
                let h = Handle {
                    idx: self.idx - 1,
                    req,
                    task,
                    middlewares: chain_clone(&self.middlewares),
                    disconnected: self.disconnected,
                    tag: Ghost(self.idx as int),
                    started: self.started,
                    notices: Ghost(
                        if self.disconnected {
                            1int
                        } else {
                            0int
                        },
                    ),
                    handler_calls: Ghost(1),
                };
                return Async::Ready(h);
            }
            proof {
                lemma_asc_range_extend(self.idx as int);
            }
            let step = chain_ref(&self.middlewares)[self.idx].start(req);
            self.started = Ghost(self.started@.push(self.idx as int));
            match step {
                Started::Done(r) => {
                    self.idx = self.idx + 1;
                    req = r;
                },
                Started::Response(r, resp) => {
                    return Async::Ready(self.short_handle(r, resp));
                },
                Started::Future(f) => {
                    let mut f = f;
                    match f.poll() {
                        StartPoll::NotReady => {
                            self.fut = Some(f);
                            return Async::NotReady;
                        },
                        StartPoll::Ready(r, resolved) => {
                            match resolved {
                                None => {
                                    self.idx = self.idx + 1;
                                    req = r;
                                },
                                Some(resp) => {
                                    return Async::Ready(self.short_handle(r, resp));
                                },
                            }
                        },
                        StartPoll::Failed(r, resp) => {
                            // An error during start never propagates: it is
                            // the short-circuit response.
                            return Async::Ready(self.short_handle(r, resp));
                        },
                    }
                },
            }
        }
    }

    /// Constructs the start chain at index 0 and runs it. The chain is only
    /// built for a non-empty middleware list; an empty one goes straight to
    /// the handler.
    pub fn init<T: Task<M>>(
        mw: Rc<Vec<M>>,
        req: Request,
        handler: H,
        payload: Payload,
    ) -> (r: StartResult<M, T, H>) where H: Handler<T>
        requires
            1 <= mw@.len(),
        ensures
            (r matches StartResult::Ready(h) ==> h.wf() && h.middlewares@ == mw@
                && !h.disconnected),
            (r matches StartResult::NotReady(s) ==> s.wf() && s.middlewares@ == mw@
                && !s.disconnected && s.payload == Some(payload)),
    {
        let mut s = Start {
            idx: 0,
            handler,
            disconnected: false,
            payload: Some(payload),
            fut: None,
            middlewares: mw,
            started: Ghost(Seq::empty()),
        };
        proof {
            assert(s.started@ =~= asc_range(0));
        }
        match s.start(req) {
            Async::Ready(h) => StartResult::Ready(h),
            Async::NotReady => StartResult::NotReady(s),
        }
    }

    /// Resumes a suspended start chain: polls the stored pending operation.
    /// A resolution that passes advances to the next hook and continues the
    /// forward traversal; a resolution with a response — or with an error,
    /// treated identically — short-circuits below the hook that was pending.
    pub fn poll<T: Task<M>>(&mut self) -> (r: Async<Handle<M, T>>) where H: Handler<T>
        requires
            old(self).wf(),
        ensures
            final(self).middlewares@ == old(self).middlewares@,
            final(self).disconnected == old(self).disconnected,
            r is NotReady ==> final(self).wf() && old(self).idx as int <= final(self).idx as int,
            r is NotReady ==> final(self).payload == old(self).payload,
            r matches Async::Ready(h) ==> h.wf() && h.middlewares@ == old(self).middlewares@
                && h.disconnected == old(self).disconnected,
            (r matches Async::Ready(h) && h.handler_calls@ == 0) ==> final(self).payload == old(
                self,
            ).payload,
            (r matches Async::Ready(h) && h.handler_calls@ == 1) ==> final(self).payload is None,
    {
        let mut f = self.fut.take().unwrap();
        match f.poll() {
            StartPoll::NotReady => {
                self.fut = Some(f);
                Async::NotReady
            },
            StartPoll::Ready(req, resolved) => {
                match resolved {
                    None => {
                        // The pending hook passed: continue forward.
                        let n = chain_ref(&self.middlewares).len();
                        assert(self.idx < n);
                        self.idx = self.idx + 1;
                        proof {
                            lemma_asc_range_extend(self.idx as int - 1);
                        }
                        self.start(req)
                    },
                    Some(resp) => Async::Ready(self.short_handle(req, resp)),
                }
            },
            StartPoll::Failed(req, resp) => Async::Ready(self.short_handle(req, resp)),
        }
    }
}

} // verus!
