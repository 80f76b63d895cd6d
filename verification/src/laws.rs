//! The protocol's governing laws.
//!
//! Each proof here relates the raise, catch and re-raise contracts: what a
//! raise puts on the wire, catching gives back unchanged, whichever side the
//! exception came from and however many boundaries it has crossed.

use vstd::prelude::*;

use crate::exception::{caught_of, lemma_wrapping_exact, lemma_wrapping_object, Caught, Exception,
    ForeignObject, Transport};
use crate::protect::Outcome;
use crate::raise::{Rethrow, UnwrapOrRethrow};

verus! {

/// Catching never alters what crossed the boundary: the caught capability
/// value reports the very message the handle carried, and keeps its origin.
pub proof fn lemma_catch_preserves_message(t: Transport)
    ensures
        caught_of(t).msg() == t.msg(),
        caught_of(t).is_foreign() == t.is_foreign(),
{
    match t {
        Transport::Foreign(o) => lemma_wrapping_object(o),
        Transport::Managed(_) => (),
    }
}

/// Raising a managed exception and catching it yields a managed-origin
/// failure whose message equals the raised exception's message: the handle a
/// raise of `e` produces ([`crate::raise::throw`]'s postcondition) comes back
/// from the catch ([`crate::protect::try_catch`]'s postcondition) with `e`'s
/// message intact.
pub proof fn lemma_managed_raise_caught<E: Exception>(e: E, t: Transport)
    requires
        e.foreign() is None,
        (t matches Transport::Managed(m) && m.msg() == e.msg()),
    ensures
        caught_of(t).msg() == e.msg(),
        !caught_of(t).is_foreign(),
{
}

/// A foreign exception raised inside a protected computation is caught as a
/// foreign-origin failure that reports the object's own message and owns
/// that very object — not a copy.
pub proof fn lemma_foreign_raise_caught(o: ForeignObject)
    ensures
        caught_of(Transport::Foreign(o)).msg() == o.msg(),
        caught_of(Transport::Foreign(o)).is_foreign(),
        caught_of(Transport::Foreign(o)).transport() == Transport::Foreign(o),
{
    lemma_wrapping_object(o);
}

/// Re-raise round trip: re-raising a caught exception and catching it again
/// gives back the identical capability value — same origin, same payload,
/// same message — whether it wraps a foreign object or a managed value.
pub proof fn lemma_reraise_round_trip(c: Caught)
    ensures
        caught_of(c.transport_of()) == c,
        caught_of(c.transport_of()).msg() == c.msg(),
{
    match c {
        Caught::Foreign(f) => lemma_wrapping_exact(f),
        Caught::Managed(_) => (),
    }
}

/// Unwrapping a successful protected result passes the success value through
/// untouched, with no raise.
pub proof fn lemma_unwrap_success<T>(v: T)
    ensures
        Result::<T, Caught>::Ok(v).outcome() == Outcome::Done(v),
{
}

/// Unwrapping a failed protected result is exactly a re-raise of the caught
/// exception: it produces the same outcome [`Rethrow::rethrow`] promises,
/// and never a success value.
pub proof fn lemma_unwrap_failure<T>(c: Caught)
    ensures
        Result::<T, Caught>::Err(c).outcome() == Outcome::<T>::Raised(c.transport_of()),
{
}

} // verus!
