//! Bridging exceptions across a managed/native boundary.
//!
//! A protected call ([`protect::try_catch`]) runs a computation and turns
//! anything it raises into an ordinary value: a [`exception::Caught`]
//! capability that remembers the exception's origin.  Raising
//! ([`raise::throw`]) and re-raising ([`raise::Rethrow`]) pick the transport
//! that matches that origin, so a foreign exception object is resumed in
//! place and never re-wrapped, while a managed value is erased to the tagged
//! transport and reconstituted unchanged on the catching side.

pub mod exception;
pub mod laws;
pub mod protect;
pub mod raise;

pub use exception::{Caught, Exception, ForeignException, ForeignObject, ManagedException,
    Transport};
pub use protect::{try_catch, Outcome};
pub use raise::{raise_foreign, throw, Rethrow, UnwrapOrRethrow};
