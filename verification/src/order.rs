//! The traversal orders of the middleware chain, as mathematical sequences.
//!
//! Start hooks fire in ascending index order; response and finish hooks fire
//! in descending index order, seeded symmetrically from how far the start
//! chain got. Each runner keeps a ghost log of the hook indices it invoked
//! and proves the log equal to one of these sequences.

use vstd::prelude::*;

verus! {

/// The indices `0, 1, ..., count - 1`: the ascending order in which start
/// hooks are invoked when `count` of them ran.
pub open spec fn asc_range(count: int) -> Seq<int> {
    Seq::new(count as nat, |i: int| i)
}

/// The indices `seed, seed - 1, ..., last`: the descending order in which
/// response and finish hooks are invoked. Empty when `last > seed`.
pub open spec fn desc_range(seed: int, last: int) -> Seq<int> {
    Seq::new((seed - last + 1) as nat, |i: int| seed - i)
}

/// Where the reverse chains begin, given how far the start chain got:
/// `tag` is the chain length on a full pass, or the index of the hook that
/// short-circuited. The hook that short-circuited does not see the response
/// or finish hooks; with nothing before it the chains begin (and end) at 0.
pub open spec fn seed_of(tag: int) -> int {
    if tag == 0 {
        0
    } else {
        tag - 1
    }
}

/// How many hooks had `start` invoked, given how far the start chain got:
/// all `n` on a full pass; the passing hooks plus the short-circuiting one
/// otherwise.
pub open spec fn started_count(tag: int, n: int) -> int {
    if tag == n {
        n
    } else {
        tag + 1
    }
}

/// Extending a descending log by its next lower index.
pub proof fn lemma_desc_range_extend(seed: int, last: int)
    requires
        last <= seed,
    ensures
        desc_range(seed, last) == desc_range(seed, last + 1).push(last),
{
    assert(desc_range(seed, last) =~= desc_range(seed, last + 1).push(last));
}

/// Extending an ascending log by its next index.
pub proof fn lemma_asc_range_extend(count: int)
    requires
        0 <= count,
    ensures
        asc_range(count + 1) == asc_range(count).push(count),
{
    assert(asc_range(count + 1) =~= asc_range(count).push(count));
}

} // verus!
