//! Active-handler driver: owns the handler's unit of work once the start
//! chain is over, drives body writing and completion polling, forwards a
//! peer-disconnection signal to the unit exactly once, and seeds the
//! finish-chain runner symmetrically with how far the start chain got.

use vstd::prelude::*;
use std::rc::Rc;
use crate::types::{Async, HookError, Middleware, Request, Task, Writer};
use crate::finish::Finish;
use crate::order::{asc_range, desc_range, seed_of, started_count};

verus! {

/// The handler phase of one request. `tag` is how far the start chain got
/// (the chain length on a full pass, the short-circuiting hook's index
/// otherwise); `idx` is the seed of the reverse chains; `started` is the
/// ghost log of hooks whose `start` was invoked, in order; `notices` counts
/// the disconnection signals forwarded to the unit.
pub struct Handle<M: Middleware, T> {
    pub idx: usize,
    pub req: Request,
    pub task: T,
    pub middlewares: Rc<Vec<M>>,
    pub disconnected: bool,
    pub tag: Ghost<int>,
    pub started: Ghost<Seq<int>>,
    pub notices: Ghost<int>,
    pub handler_calls: Ghost<int>,
}

impl<M: Middleware, T> Handle<M, T> {
    pub open spec fn chain_len(&self) -> int {
        self.middlewares@.len() as int
    }

    /// The reverse seed is symmetric with the start traversal; the start log
    /// is exactly the ascending range of the hooks that ran; the handler was
    /// invoked exactly once on a full pass and not at all on a short-circuit;
    /// the unit observed at most one disconnection signal, exactly one once
    /// the flag is set.
    pub open spec fn wf(&self) -> bool {
        &&& 1 <= self.chain_len()
        &&& 0 <= self.tag@ <= self.chain_len()
        &&& self.idx as int == seed_of(self.tag@)
        &&& (self.idx as int) < self.chain_len()
        &&& self.started@ == asc_range(started_count(self.tag@, self.chain_len()))
        &&& self.notices@ == (if self.disconnected {
            1int
        } else {
            0int
        })
        &&& self.handler_calls@ == (if self.tag@ == self.chain_len() {
            1int
        } else {
            0int
        })
    }
}

impl<M: Middleware, T: Task<M>> Handle<M, T> {
    /// Delegates body writing to the handler unit against the external sink.
    pub fn poll_io<W: Writer>(&mut self, io: &mut W) -> (r: Result<Async<bool>, ()>)
        requires
            old(self).wf(),
        ensures
            final(self).wf(),
            final(self).idx == old(self).idx,
            final(self).middlewares@ == old(self).middlewares@,
            final(self).disconnected == old(self).disconnected,
            final(self).tag@ == old(self).tag@,
            final(self).started@ == old(self).started@,
            final(self).notices@ == old(self).notices@,
            final(self).handler_calls@ == old(self).handler_calls@,
    {
        self.task.poll_io(io, &mut self.req)
    }

    /// Delegates the completion check to the handler unit.
    pub fn poll(&mut self) -> (r: Result<Async<()>, HookError>)
        requires
            old(self).wf(),
        ensures
            final(self).wf(),
            final(self).idx == old(self).idx,
            final(self).middlewares@ == old(self).middlewares@,
            final(self).disconnected == old(self).disconnected,
            final(self).tag@ == old(self).tag@,
            final(self).started@ == old(self).started@,
            final(self).notices@ == old(self).notices@,
            final(self).handler_calls@ == old(self).handler_calls@,
    {
        self.task.poll()
    }

    /// Forwards a peer-disconnection signal to the handler unit. The signal
    /// is propagated exactly once: repeated calls are absorbed here.
    pub fn disconnected(&mut self)
        requires
            old(self).wf(),
        ensures
            final(self).wf(),
            final(self).disconnected,
            final(self).notices@ == 1,
            final(self).idx == old(self).idx,
            final(self).middlewares@ == old(self).middlewares@,
            final(self).tag@ == old(self).tag@,
            final(self).started@ == old(self).started@,
            final(self).handler_calls@ == old(self).handler_calls@,
    {
        if !self.disconnected {
            self.disconnected = true;
            self.task.disconnected();
            self.notices = Ghost(self.notices@ + 1);
        }
    }

    /// Finalizes the unit's response and seeds the finish-chain runner with
    /// the same index as the response chain: the onion's reverse traversal.
    pub fn finish(self) -> (r: Finish<M>)
        requires
            self.wf(),
        ensures
            r.wf(),
            !r.done,
            r.fut is None,
            r.req == self.req,
            r.idx == self.idx,
            r.seed@ == seed_of(self.tag@),
            r.tag@ == self.tag@,
            r.started@ == self.started@,
            r.visited@ == Seq::<int>::empty(),
            r.middlewares@ == self.middlewares@,
    {
        let mut task = self.task;
        let resp = task.response();
        let r = Finish {
            idx: self.idx,
            req: self.req,
            resp,
            fut: None,
            middlewares: self.middlewares,
            done: false,
            seed: Ghost(self.idx as int),
            visited: Ghost(Seq::empty()),
            tag: self.tag,
            started: self.started,
        };
        proof {
            assert(r.visited@ =~= desc_range(r.seed@, r.idx as int + 1));
        }
        r
    }
}

} // verus!
