//! The protected call: run a computation, catch whatever it raises.
//!
//! A computation under a protected call does not diverge when it raises;
//! it finishes with an [`Outcome`] that either carries its result or carries
//! the raised exception's transport handle.  [`try_catch`] drives the
//! computation through the boundary's protected-call entry point and turns a
//! caught handle back into a [`Caught`] capability value.

use vstd::prelude::*;

use crate::exception::{caught_of, resurrect, Caught, Transport};

verus! {

/// How one run of a protected computation ends: with a value, or with an
/// exception already erased to the handle the boundary moves.
#[derive(Debug)]
pub enum Outcome<T> {
    /// The computation completed normally.
    Done(T),
    /// The computation raised, and this handle carries what it raised.
    Raised(Transport),
}

/// The state threaded through one protected call: the pending computation,
/// consumed at most once, and the slot its result is stored into.
///
/// After the boundary's protected-call entry point returns, exactly one of
/// the result slot and the caught handle is populated — never both, never
/// neither ([`run_protected`]'s postcondition is that invariant).
#[verifier::reject_recursive_types(T)]
struct ProtectedState<T, F: FnOnce() -> Outcome<T>> {
    /// The computation, present until the entry point consumes it.
    block: Option<F>,
    /// Where a normal completion leaves its value.
    result: Option<T>,
}

/// The protected-call entry point: consumes the pending computation, runs it
/// exactly once, and either fills the result slot (normal completion) or
/// hands back the caught exception's handle — exactly one of the two.
fn run_protected<T, F: FnOnce() -> Outcome<T>>(state: &mut ProtectedState<T, F>) -> (handle:
    Option<Transport>)
    requires
        old(state).block is Some,
        old(state).result is None,
        call_requires(old(state).block->0, ()),
    ensures
        final(state).block is None,
        (match handle {
            None => final(state).result matches Some(v) && call_ensures(
                old(state).block->0,
                (),
                Outcome::Done(v),
            ),
            Some(t) => final(state).result is None && call_ensures(
                old(state).block->0,
                (),
                Outcome::Raised(t),
            ),
        }),
{
    let block = state.block.take();
    match (block.unwrap())() {
        Outcome::Done(v) => {
            state.result = Some(v);
            None
        },
        Outcome::Raised(t) => Some(t),
    }
}

/// Runs `f` under the boundary's protected-call mechanism.
///
/// The computation runs exactly once.  If it completes normally, its value
/// comes back as `Ok`, and the exception handle is never touched.  If it
/// raises, the caught handle is reconstituted origin-correctly: a managed
/// payload comes back as the very value that was erased when it was raised,
/// and a foreign object comes back owned by a fresh wrapper.
pub fn try_catch<T, F: FnOnce() -> Outcome<T>>(f: F) -> (r: Result<T, Caught>)
    requires
        call_requires(f, ()),
    ensures
        (match r {
            Ok(v) => call_ensures(f, (), Outcome::Done(v)),
            Err(c) => exists|t: Transport|
                #[trigger] call_ensures(f, (), Outcome::Raised(t)) && c == caught_of(t),
        }),
{
    let mut state = ProtectedState { block: Some(f), result: None };
    let handle = run_protected(&mut state);
    match handle {
        // The handle is untouched: the populated result slot alone signals
        // success.
        None => Ok(state.result.unwrap()),
        Some(t) => Err(resurrect(t)),
    }
}

} // verus!
