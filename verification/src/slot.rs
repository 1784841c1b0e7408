//! The slot that holds one entry point's callable.

use crate::entry::EntryPoint;
use vstd::prelude::*;

verus! {

/// What a slot of the registry hands to a caller.
#[derive(Clone, Copy, Debug, PartialEq, Eq, Structural)]
pub enum Callable {
    /// The native function that lives at this address.
    Native(usize),
    /// The stand-in for an entry point that no resolver has found. It carries
    /// the entry point, so that a call through it can say what is missing.
    Failing(EntryPoint),
}

/// One entry point's storage: the callable to use, and whether it is the
/// resolved one or the stand-in that was supplied in its place.
#[derive(Clone, Copy, Debug)]
pub struct FnPtr<F> {
    pub f: F,
    pub is_loaded: bool,
}

impl<F> FnPtr<F> {
    /// Builds a slot from what a resolver answered: the resolved callable,
    /// marked loaded, or `failing_fn`, marked not loaded.
    pub fn new(ptr: Option<F>, failing_fn: F) -> (slot: FnPtr<F>)
        ensures
            slot.is_loaded == ptr.is_some(),
            slot.f == (match ptr {
                Some(p) => p,
                None => failing_fn,
            }),
    {
        match ptr {
            Some(p) => FnPtr { f: p, is_loaded: true },
            None => FnPtr { f: failing_fn, is_loaded: false },
        }
    }
}

/// The slot of `entry` when a resolver answered `answer` for it: loaded with
/// the native address that was found, or not loaded, with the stand-in that
/// names `entry`.
pub open spec fn slot_for(entry: EntryPoint, answer: Option<usize>) -> FnPtr<Callable> {
    match answer {
        Some(address) => FnPtr { f: Callable::Native(address), is_loaded: true },
        None => FnPtr { f: Callable::Failing(entry), is_loaded: false },
    }
}

} // verus!
