//! Response-chain runner: replays middleware `response` hooks over a produced
//! response in reverse registration order, supporting hooks that complete
//! synchronously or suspend into a pending operation.
//!
//! The handler unit owns this runner (the pipeline attaches it when the
//! handler is invoked) and drives it while finalizing its output.

use vstd::prelude::*;
use std::rc::Rc;
use crate::types::{Async, Middleware, MwResponse, Request, Response, ResponseFuture, ResponsePoll};
use crate::chain::chain_ref;
use crate::order::{desc_range, lemma_desc_range_extend, seed_of};

verus! {

/// Replays `response` hooks from the seed index down to 0. `visited` is the
/// ghost log of hook indices whose `response` was invoked, newest last.
pub struct MiddlewaresResponse<M: Middleware> {
    pub idx: usize,
    pub fut: Option<M::RFut>,
    pub middlewares: Rc<Vec<M>>,
    pub seed: Ghost<int>,
    pub visited: Ghost<Seq<int>>,
    pub done: Ghost<bool>,
}

impl<M: Middleware> MiddlewaresResponse<M> {
    pub open spec fn chain_len(&self) -> int {
        self.middlewares@.len() as int
    }

    /// The reverse index never leaves `[0, seed]`, and the log of invoked
    /// hooks is exactly the descending range the state calls for: complete
    /// once delivered, down to the suspended hook while one is pending, and
    /// down to the hook above the next target otherwise.
    pub open spec fn wf(&self) -> bool {
        &&& 0 <= self.seed@ < self.chain_len()
        &&& self.idx as int <= self.seed@
        &&& if self.done@ {
            &&& self.fut is None
            &&& self.idx == 0
            &&& self.visited@ == desc_range(self.seed@, 0)
        } else if self.fut is Some {
            self.visited@ == desc_range(self.seed@, self.idx as int)
        } else {
            self.visited@ == desc_range(self.seed@, self.idx as int + 1)
        }
    }

    /// Not yet run: no hook invoked, no pending operation.
    pub open spec fn fresh(&self) -> bool {
        &&& !self.done@
        &&& self.fut is None
        &&& self.idx as int == self.seed@
    }

    /// Seeds the reverse chain from how far the start chain got: the last
    /// middleware to see the request on the way in is the first to see the
    /// response on the way out; the hook that short-circuited is skipped.
    pub fn new(idx: usize, mw: Rc<Vec<M>>) -> (r: MiddlewaresResponse<M>)
        requires
            mw@.len() >= 1,
            idx <= mw@.len(),
        ensures
            r.wf(),
            r.fresh(),
            r.seed@ == seed_of(idx as int),
            r.middlewares@ == mw@,
            r.visited@ == Seq::<int>::empty(),
    {
        let idx = if idx == 0 { 0 } else { idx - 1 };
        let r = MiddlewaresResponse {
            idx,
            fut: None,
            middlewares: mw,
            seed: Ghost(idx as int),
            visited: Ghost(Seq::empty()),
            done: Ghost(false),
        };
        proof {
            assert(r.visited@ =~= desc_range(r.seed@, r.idx as int + 1));
        }
        r
    }

    /// Synchronous fast path: invokes `response` on each hook from the seed
    /// downward while the hook replies immediately. Returns the final
    /// response once hook 0 has replied; returns `None` and stores the
    /// pending operation if a hook suspends, to be resumed by `poll`.
    pub fn response(&mut self, req: &mut Request, resp: Response) -> (r: Option<Response>)
        requires
            old(self).wf(),
            !old(self).done@,
            old(self).fut is None,
        ensures
            final(self).wf(),
            final(self).seed@ == old(self).seed@,
            final(self).middlewares@ == old(self).middlewares@,
            r is Some <==> final(self).done@,
            r is Some ==> final(self).idx == 0 && final(self).visited@ == desc_range(old(self).seed@, 0),
            r is None ==> final(self).fut is Some && final(self).idx as int <= old(self).idx as int,
    {
        let mut resp = resp;
        loop
            invariant
                self.wf(),
                !self.done@,
                self.fut is None,
                self.seed@ == old(self).seed@,
                self.middlewares@ == old(self).middlewares@,
                self.idx as int <= old(self).idx as int,
            decreases self.idx,
        {
            proof {
                lemma_desc_range_extend(self.seed@, self.idx as int);
            }
            let step = chain_ref(&self.middlewares)[self.idx].response(req, resp);
            self.visited = Ghost(self.visited@.push(self.idx as int));
            match step {
                MwResponse::Response(r) => {
                    if self.idx == 0 {
                        self.done = Ghost(true);
                        return Some(r);
                    }
                    self.idx = self.idx - 1;
                    resp = r;
                },
                MwResponse::Future(f) => {
                    self.fut = Some(f);
                    return None;
                },
            }
        }
    }

    /// Resumes a suspended reverse chain: polls the stored operation and, on
    /// resolution (success or failure alike), continues invoking `response`
    /// hooks at strictly lower indices until hook 0 delivers the final
    /// response or another hook suspends. With nothing pending it is a
    /// degenerate no-op signalling `Ready(None)`.
    pub fn poll(&mut self, req: &mut Request) -> (r: Result<Async<Option<Response>>, ()>)
        requires
            old(self).wf(),
        ensures
            final(self).wf(),
            final(self).seed@ == old(self).seed@,
            final(self).middlewares@ == old(self).middlewares@,
            old(self).fut is None ==> (r matches Ok(Async::Ready(o)) && o is None) && *final(self) == *old(self),
            r matches Ok(Async::Ready(Some(_))) ==> final(self).done@ && final(self).idx == 0
                && final(self).visited@ == desc_range(old(self).seed@, 0),
            r matches Ok(Async::NotReady) ==> final(self).fut is Some && !final(self).done@
                && final(self).idx as int <= old(self).idx as int,
            r is Err ==> false,
            old(self).fut is Some ==> !(r matches Ok(Async::Ready(None::<Response>))),
    {
        if self.fut.is_none() {
            return Ok(Async::Ready(None));
        }
        loop
            invariant
                old(self).fut is Some,
                self.wf(),
                !self.done@,
                self.fut is Some,
                self.seed@ == old(self).seed@,
                self.middlewares@ == old(self).middlewares@,
                self.idx as int <= old(self).idx as int,
            decreases self.idx,
        {
            let ghost outer_idx: int = self.idx as int;
            let mut f = match self.fut.take() {
                Some(f) => f,
                None => {
                    proof {
                        assert(false);
                    }
                    return Ok(Async::NotReady);
                },
            };
            match f.poll() {
                ResponsePoll::NotReady => {
                    self.fut = Some(f);
                    return Ok(Async::NotReady);
                },
                ResponsePoll::Ready(r) | ResponsePoll::Failed(r) => {
                    // The suspended hook resolved; continue at lower indices.
                    let mut resp = r;
                    loop
                        invariant_except_break
                            old(self).fut is Some,
                            0 <= self.seed@ < self.chain_len(),
                            self.idx as int <= self.seed@,
                            !self.done@,
                            self.fut is None,
                            self.visited@ == desc_range(self.seed@, self.idx as int),
                            self.seed@ == old(self).seed@,
                            self.middlewares@ == old(self).middlewares@,
                            self.idx as int <= outer_idx,
                        ensures
                            self.wf(),
                            !self.done@,
                            self.fut is Some,
                            self.seed@ == old(self).seed@,
                            self.middlewares@ == old(self).middlewares@,
                            (self.idx as int) < outer_idx,
                        decreases self.idx,
                    {
                        if self.idx == 0 {
                            self.done = Ghost(true);
                            return Ok(Async::Ready(Some(resp)));
                        }
                        self.idx = self.idx - 1;
                        proof {
                            lemma_desc_range_extend(self.seed@, self.idx as int);
                        }
                        let step = chain_ref(&self.middlewares)[self.idx].response(req, resp);
                        self.visited = Ghost(self.visited@.push(self.idx as int));
                        match step {
                            MwResponse::Response(r2) => {
                                resp = r2;
                            },
                            MwResponse::Future(f2) => {
                                self.fut = Some(f2);
                                break ;
                            },
                        }
                    }
                },
            }
        }
    }
}

} // verus!
