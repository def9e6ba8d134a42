//! The pipeline's ordering and exactly-once guarantees, stated over the spec
//! functions that the runners' contracts use and proved once and for all.

use vstd::prelude::*;
use crate::finish::Finish;
use crate::handle::Handle;
use crate::order::{asc_range, desc_range, seed_of, started_count};
use crate::pipeline::{Pipeline, PipelineState};
use crate::types::Middleware;

verus! {

/// Law (short-circuit ordering): when the hook at index `k` of a chain of
/// `n` short-circuits the start chain, `start` ran on exactly the hooks
/// `0 ..= k` in ascending order — later hooks never see `start` — and the
/// reverse chains visit exactly the hooks below `k`, in strictly descending
/// order ending at 0.
pub proof fn lemma_short_circuit_order(k: int, n: int)
    requires
        1 <= k < n,
    ensures
        started_count(k, n) == k + 1,
        forall|i: int| 0 <= i <= k ==> #[trigger] asc_range(k + 1)[i] == i,
        forall|i: int| 0 <= i <= k ==> 0 <= #[trigger] asc_range(k + 1)[i] <= k,
        seed_of(k) == k - 1,
        desc_range(k - 1, 0).len() == k,
        forall|i: int| 0 <= i < k ==> #[trigger] desc_range(k - 1, 0)[i] == k - 1 - i,
        forall|i: int| 0 <= i < k ==> 0 <= #[trigger] desc_range(k - 1, 0)[i] < k,
        forall|i: int, j: int|
            0 <= i < j < k ==> #[trigger] desc_range(k - 1, 0)[i] > #[trigger] desc_range(k - 1, 0)[j],
        k >= 1 ==> desc_range(k - 1, 0).last() == 0,
{
}

/// Law (full-pass ordering): when every hook of a chain of `n` passes,
/// `start` ran on all of them in ascending order and the reverse chains
/// visit all of them in strictly descending order from `n - 1` to 0.
pub proof fn lemma_full_pass_order(n: int)
    requires
        1 <= n,
    ensures
        started_count(n, n) == n,
        forall|i: int| 0 <= i < n ==> #[trigger] asc_range(n)[i] == i,
        seed_of(n) == n - 1,
        desc_range(n - 1, 0).len() == n,
        forall|i: int| 0 <= i < n ==> #[trigger] desc_range(n - 1, 0)[i] == n - 1 - i,
        forall|i: int, j: int|
            0 <= i < j < n ==> #[trigger] desc_range(n - 1, 0)[i] > #[trigger] desc_range(n - 1, 0)[j],
        desc_range(n - 1, 0).last() == 0,
{
}

/// Law (reverse index): seeded at `s`, a delivered reverse chain's visit log
/// has strictly decreasing entries from exactly `s` down to exactly 0, and
/// no entry ever lies outside `[0, s]`.
pub proof fn lemma_reverse_strictly_decreasing(s: int)
    requires
        0 <= s,
    ensures
        desc_range(s, 0).len() == s + 1,
        desc_range(s, 0).first() == s,
        desc_range(s, 0).last() == 0,
        forall|i: int| 0 <= i <= s ==> #[trigger] desc_range(s, 0)[i] == s - i,
        forall|i: int| 0 <= i <= s ==> 0 <= #[trigger] desc_range(s, 0)[i] <= s,
        forall|i: int, j: int| 0 <= i < j <= s ==> #[trigger] desc_range(s, 0)[i] > #[trigger] desc_range(s, 0)[j],
{
}

/// Law (body stream consumed once): in any well-formed handler phase the
/// handler ran at most once — however often the start chain suspended and
/// resumed — and exactly once precisely when every start hook passed.
pub proof fn lemma_handler_runs_once<M: Middleware, T>(h: Handle<M, T>)
    requires
        h.wf(),
    ensures
        0 <= h.handler_calls@ <= 1,
        h.handler_calls@ == 1 <==> h.tag@ == h.chain_len(),
{
}

/// Law (disconnect observed once): a well-formed handler phase has forwarded
/// at most one disconnection signal to the handler unit, and exactly one
/// once the disconnect flag is set — however often `disconnected` was called.
pub proof fn lemma_disconnect_once<M: Middleware, T>(h: Handle<M, T>)
    requires
        h.wf(),
    ensures
        h.notices@ <= 1,
        h.notices@ == (if h.disconnected {
            1int
        } else {
            0int
        }),
{
}

/// Law (onion symmetry at terminal): once a well-formed cleanup chain is
/// done, its visit log is exactly the strictly descending range from its
/// seed to 0, the seed sits directly below the last hook that saw `start`,
/// and the start log is ascending — the two traversals are symmetric.
pub proof fn lemma_terminal_onion<M: Middleware>(f: Finish<M>)
    requires
        f.wf(),
        f.done,
    ensures
        f.seed@ == seed_of(f.tag@),
        f.visited@.len() == f.seed@ + 1,
        forall|i: int| 0 <= i <= f.seed@ ==> #[trigger] f.visited@[i] == f.seed@ - i,
        f.visited@.last() == 0,
        f.started@.len() == started_count(f.tag@, f.chain_len()),
        forall|i: int| 0 <= i < f.started@.len() ==> #[trigger] f.started@[i] == i,
{
    assert(f.visited@ == desc_range(f.seed@, 0));
    assert(f.visited@.last() == 0);
}

/// Law (driver terminal): a well-formed driver whose cleanup phase is done
/// carries the whole onion guarantee: `start` ran ascending from 0, the
/// reverse chains ran strictly descending from directly below the last hook
/// that saw `start` to exactly 0, and a hook past the short-circuit point
/// appears in neither log.
pub proof fn lemma_pipeline_terminal_onion<M: Middleware, T, H>(p: Pipeline<M, T, H>)
    requires
        p.wf(),
        p.0 matches PipelineState::Finishing(f) && f.done,
    ensures
        p.0 matches PipelineState::Finishing(f) ==> {
            &&& f.started@.len() == started_count(f.tag@, f.chain_len())
            &&& (forall|i: int| 0 <= i < f.started@.len() ==> #[trigger] f.started@[i] == i)
            &&& f.visited@ == desc_range(seed_of(f.tag@), 0)
            &&& f.visited@.last() == 0
            &&& (forall|i: int, j: int|
                0 <= i < j < f.visited@.len() ==> #[trigger] f.visited@[i] > #[trigger] f.visited@[j])
        },
{
    if let PipelineState::Finishing(f) = p.0 {
        lemma_terminal_onion(f);
    }
}

} // verus!
