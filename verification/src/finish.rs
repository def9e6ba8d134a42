//! Finish-chain runner: replays middleware `finish` hooks (cleanup) in
//! strictly decreasing index order once the handler's work is fully done.
//!
//! Failures are non-fatal by design: an error from a hook's pending operation
//! is absorbed and the chain advances exactly as on success, so cleanup
//! always reaches its terminal index.

use vstd::prelude::*;
use std::rc::Rc;
use crate::types::{Async, Finished, FinishFuture, FinishPoll, Middleware, Request, Response};
use crate::chain::chain_ref;
use crate::order::{asc_range, desc_range, lemma_desc_range_extend, seed_of, started_count};

verus! {

/// How a resolved pending operation advances the chain: the next index and
/// whether the terminal index was reached. Success and failure advance
/// identically; only "not ready" leaves the chain where it was.
pub open spec fn finish_resolve_step(idx: int, outcome: FinishPoll) -> (int, bool) {
    match outcome {
        FinishPoll::NotReady => (idx, false),
        FinishPoll::Ready => if idx == 0 {
            (0, true)
        } else {
            (idx - 1, false)
        },
        FinishPoll::Failed(_) => if idx == 0 {
            (0, true)
        } else {
            (idx - 1, false)
        },
    }
}

/// Law: finish-hook failures are absorbed. A pending operation that resolves
/// with an error advances the chain exactly as one that resolves with
/// success, so the runner reaches its terminal even when every hook's
/// pending operation fails.
pub proof fn lemma_finish_absorbs_failure(idx: int, e: crate::types::HookError)
    ensures
        finish_resolve_step(idx, FinishPoll::Failed(e)) == finish_resolve_step(
            idx,
            FinishPoll::Ready,
        ),
{
}

/// Runs `finish` hooks from the seed index down to 0. `visited` is the ghost
/// log of hook indices whose `finish` was invoked, newest last; `tag` and
/// `started` carry how far the start chain got, so the symmetry between the
/// forward and reverse traversals is part of the invariant.
pub struct Finish<M: Middleware> {
    pub idx: usize,
    pub req: Request,
    pub resp: Response,
    pub fut: Option<M::FFut>,
    pub middlewares: Rc<Vec<M>>,
    pub done: bool,
    pub seed: Ghost<int>,
    pub visited: Ghost<Seq<int>>,
    pub tag: Ghost<int>,
    pub started: Ghost<Seq<int>>,
}

impl<M: Middleware> Finish<M> {
    pub open spec fn chain_len(&self) -> int {
        self.middlewares@.len() as int
    }

    /// The reverse index stays in `[0, seed]`; the seed is symmetric with the
    /// start traversal (`seed_of(tag)`); and the log of invoked hooks is the
    /// descending range the state calls for.
    pub open spec fn wf(&self) -> bool {
        &&& 0 <= self.seed@ < self.chain_len()
        &&& self.idx as int <= self.seed@
        &&& 0 <= self.tag@ <= self.chain_len()
        &&& self.seed@ == seed_of(self.tag@)
        &&& self.started@ == asc_range(started_count(self.tag@, self.chain_len()))
        &&& if self.done {
            &&& self.fut is None
            &&& self.idx == 0
            &&& self.visited@ == desc_range(self.seed@, 0)
        } else if self.fut is Some {
            self.visited@ == desc_range(self.seed@, self.idx as int)
        } else {
            self.visited@ == desc_range(self.seed@, self.idx as int + 1)
        }
    }

    /// Drives the cleanup chain toward its terminal: resolves a pending
    /// operation first (absorbing failures), then invokes `finish` on each
    /// hook at strictly decreasing indices until hook 0 completes or a hook
    /// suspends. Once terminal, further polls return `Ready` without
    /// invoking any hook again.
    pub fn poll(&mut self) -> (r: Async<()>)
        requires
            old(self).wf(),
        ensures
            final(self).wf(),
            final(self).seed@ == old(self).seed@,
            final(self).tag@ == old(self).tag@,
            final(self).started@ == old(self).started@,
            final(self).middlewares@ == old(self).middlewares@,
            final(self).resp == old(self).resp,
            r is Ready <==> final(self).done,
            r is Ready ==> final(self).idx == 0 && final(self).visited@ == desc_range(old(self).seed@, 0),
            r is NotReady ==> final(self).fut is Some && final(self).idx as int <= old(self).idx as int,
            old(self).done ==> *final(self) == *old(self),
    {
        if self.done {
            return Async::Ready(());
        }
        loop
            invariant
                !old(self).done,
                self.wf(),
                !self.done,
                self.idx as int <= old(self).idx as int,
                self.resp == old(self).resp,
                self.seed@ == old(self).seed@,
                self.tag@ == old(self).tag@,
                self.started@ == old(self).started@,
                self.middlewares@ == old(self).middlewares@,
            decreases self.idx, (if self.fut is None { 1int } else { 0int }),
        {
            if self.fut.is_some() {
                let mut f = self.fut.take().unwrap();
                let outcome = f.poll();
                let ghost oc: FinishPoll = outcome;
                match outcome {
                    FinishPoll::NotReady => {
                        self.fut = Some(f);
                        proof {
                            assert(finish_resolve_step(self.idx as int, oc) == (
                                self.idx as int,
                                false,
                            ));
                        }
                        return Async::NotReady;
                    },
                    FinishPoll::Ready | FinishPoll::Failed(_) => {
                        // Success and failure alike: the hook at `idx` is over.
                        if self.idx == 0 {
                            self.done = true;
                            proof {
                                assert(finish_resolve_step(self.idx as int, oc) == (0int, true));
                            }
                            return Async::Ready(());
                        }
                        proof {
                            assert(finish_resolve_step(self.idx as int, oc) == (
                                self.idx as int - 1,
                                false,
                            ));
                        }
                        self.idx = self.idx - 1;
                    },
                }
            }
            // Invoke the finish hook at the current index.
            proof {
                lemma_desc_range_extend(self.seed@, self.idx as int);
            }
            let step = chain_ref(&self.middlewares)[self.idx].finish(&mut self.req, &self.resp);
            self.visited = Ghost(self.visited@.push(self.idx as int));
            match step {
                Finished::Done => {
                    if self.idx == 0 {
                        self.done = true;
                        return Async::Ready(());
                    }
                    self.idx = self.idx - 1;
                },
                Finished::Future(f) => {
                    self.fut = Some(f);
                },
            }
        }
    }
}

} // verus!
