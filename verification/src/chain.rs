//! The shared middleware chain: an ordered, immutable sequence of middleware
//! values, reference-counted so that every runner of one request (and every
//! concurrent request on the worker) reads the same chain. It is never
//! mutated after construction; both wrappers therefore promise that the value
//! seen through a handle equals the chain's view.

use vstd::prelude::*;
use std::rc::Rc;
use crate::types::Middleware;

verus! {

/// Relies on std's `Rc::as_ref`: it returns a reference to the single shared
/// value, so the borrowed vector's view is the handle's view.
#[verifier::external_body]
pub(crate) fn chain_ref<M: Middleware>(mw: &Rc<Vec<M>>) -> (r: &Vec<M>)
    ensures
        r@ == mw@,
{
    mw.as_ref()
}

/// Relies on std's `Rc::clone`: it returns a new handle to the same shared
/// allocation, so both handles view the same vector.
#[verifier::external_body]
pub(crate) fn chain_clone<M: Middleware>(mw: &Rc<Vec<M>>) -> (r: Rc<Vec<M>>)
    ensures
        r@ == mw@,
{
    Rc::clone(mw)
}

} // verus!
