//! Raising and re-raising across the boundary.
//!
//! A first raise of a managed value erases it to the fresh-raise transport.
//! A value that already owns a caught foreign exception object must instead
//! resume that exact object — re-boxing a live foreign exception corrupts
//! the foreign runtime's bookkeeping — so every raise here dispatches on the
//! value's origin, and the caller has no way to pick the wrong transport.

use vstd::prelude::*;

use crate::exception::{Caught, Exception, ForeignObject, ManagedException, Transport};
use crate::protect::Outcome;

verus! {

/// Raises `exception` out of the surrounding protected computation.
///
/// A purely managed value is erased to the fresh-raise transport, tagged
/// managed-origin, carrying its message.  A value that wraps a live foreign
/// exception object surrenders the object to the re-raise transport instead,
/// untouched.
pub fn throw<T, E: Exception>(exception: E) -> (r: Outcome<T>)
    ensures
        (match r {
            Outcome::Raised(t) => match t {
                Transport::Managed(m) => (exception.foreign() is None && m.msg()
                    == exception.msg()),
                Transport::Foreign(o) => exception.foreign() == Some(o),
            },
            Outcome::Done(_) => false,
        }),
{
    match exception.take_foreign() {
        // Already-caught foreign exception: resume the exact object.
        Ok(object) => Outcome::Raised(Transport::Foreign(object)),
        // First raise of a managed value: erase it and tag it managed-origin.
        Err(managed) => {
            let message = managed.what().to_owned();
            Outcome::Raised(Transport::Managed(ManagedException::new(message)))
        },
    }
}

/// A raise performed by the foreign runtime itself inside a protected
/// computation: the boundary catches the object and tags it foreign-origin,
/// so the handle owns the object as it crossed, with no managed wrapping.
pub fn raise_foreign<T>(object: ForeignObject) -> (r: Outcome<T>)
    ensures
        r == Outcome::<T>::Raised(Transport::Foreign(object)),
{
    Outcome::Raised(Transport::Foreign(object))
}

/// Re-raising an already-caught exception.
pub trait Rethrow: Sized {
    /// The transport a re-raise of this value uses.
    spec fn transport_of(self) -> Transport;

    /// Raises this caught exception again, origin-correctly.
    fn rethrow<T>(self) -> (r: Outcome<T>)
        ensures
            r == Outcome::<T>::Raised(self.transport_of()),
    ;
}

impl Rethrow for Caught {
    /// A caught foreign exception resumes its own object in place; a caught
    /// managed exception is raised afresh, unchanged.
    open spec fn transport_of(self) -> Transport {
        self.transport()
    }

    fn rethrow<T>(self) -> (r: Outcome<T>) {
        Outcome::Raised(self.into_transport())
    }
}

/// Unwrapping a protected call's result, propagating its failure.
pub trait UnwrapOrRethrow<T>: Sized {
    /// What unwrapping yields: the success value, or the re-raise.
    spec fn outcome(self) -> Outcome<T>;

    /// Passes a success value through untouched; re-raises a failure.
    fn unwrap_or_rethrow(self) -> (r: Outcome<T>)
        ensures
            r == self.outcome(),
    ;
}

impl<T> UnwrapOrRethrow<T> for Result<T, Caught> {
    open spec fn outcome(self) -> Outcome<T> {
        match self {
            Ok(v) => Outcome::Done(v),
            Err(c) => Outcome::Raised(c.transport()),
        }
    }

    fn unwrap_or_rethrow(self) -> (r: Outcome<T>) {
        match self {
            Ok(v) => Outcome::Done(v),
            Err(c) => c.rethrow(),
        }
    }
}

} // verus!
