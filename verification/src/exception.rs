//! Exception values and the tagged transport that carries them across the
//! boundary.
//!
//! The native unwinding machinery moves a two-word handle whose meaning
//! depends on where the exception came from.  Here that handle is an explicit
//! tagged value, [`Transport`]: either an owned foreign-runtime exception
//! object, or an erased managed exception.  The pair of conversions between a
//! caught capability value and its transport — [`Caught::into_transport`]
//! (erase) and [`resurrect`] (reconstitute) — live in this module and nowhere
//! else, and are proved to be mutually inverse in [`crate::laws`].

use vstd::prelude::*;

verus! {

/// The capability every raisable value provides: a descriptive message, and
/// — for values that are themselves wrappers over a caught foreign exception
/// object — the ability to surrender that object, so that a raise uses the
/// origin-correct transport instead of re-wrapping a live foreign exception.
pub trait Exception: Sized {
    /// The message, as specification-level text.  An implementation
    /// overrides this with the text its `what` returns; the default leaves
    /// the message empty.
    open spec fn msg(&self) -> Seq<char> {
        Seq::empty()
    }

    /// The live foreign exception object this value wraps; `None` — the
    /// default — for purely managed exceptions.
    open spec fn foreign(&self) -> Option<ForeignObject> {
        None
    }

    /// The human-readable description of this exception.
    fn what(&self) -> (r: &str)
        ensures
            r@ == self.msg(),
    ;

    /// Surrenders the wrapped live foreign exception object, or hands the
    /// value back untouched if it is purely managed.  Most implementations
    /// are the latter: `Err(self)` is the whole body.
    fn take_foreign(self) -> (r: Result<ForeignObject, Self>)
        ensures
            (match r {
                Ok(o) => self.foreign() == Some(o),
                Err(e) => (e == self && self.foreign() is None),
            }),
    ;
}

/// An exception object owned by the foreign runtime, as the managed side is
/// able to observe it: an opaque identity together with the text that the
/// runtime's message-extraction entry point yields for it.
///
/// The value is deliberately not `Clone`: exactly one owner holds a given
/// foreign exception object at any time, so it can be released exactly once.
#[derive(Debug)]
pub struct ForeignObject {
    message: String,
}

impl ForeignObject {
    /// The message the foreign runtime reports for this object.
    pub closed spec fn msg(&self) -> Seq<char> {
        self.message@
    }

    /// Takes custody of a foreign exception object carrying `message`.
    pub fn new(message: String) -> (r: ForeignObject)
        ensures
            r.msg() == message@,
    {
        ForeignObject { message }
    }

    /// The foreign runtime's message-extraction entry point, as the managed
    /// side sees it.
    pub fn message(&self) -> (r: &str)
        ensures
            r@ == self.msg(),
    {
        self.message.as_str()
    }

    /// The foreign runtime's destruction entry point: releases the object.
    /// Consuming `self` is what makes a second release impossible.
    pub fn destroy(self) {
    }
}

/// A managed-origin exception after erasure: the payload that the fresh-raise
/// transport carries and that the catching side reconstitutes.
#[derive(Debug)]
pub struct ManagedException {
    message: String,
}

impl ManagedException {
    /// Erases a managed exception to its transportable form.
    pub fn new(message: String) -> (r: ManagedException)
        ensures
            r.msg() == message@,
    {
        ManagedException { message }
    }
}

impl Exception for ManagedException {
    closed spec fn msg(&self) -> Seq<char> {
        self.message@
    }

    open spec fn foreign(&self) -> Option<ForeignObject> {
        None
    }

    fn what(&self) -> (r: &str)
        ensures
            r@ == self.msg(),
    {
        self.message.as_str()
    }

    fn take_foreign(self) -> (r: Result<ForeignObject, Self>) {
        Err(self)
    }
}

/// The two-word handle that crosses the boundary, made explicit as a tagged
/// value: the tag records the origin that the trampoline's out-flag reports,
/// and the payload is owned by the handle until the catching side consumes
/// it.
#[derive(Debug)]
pub enum Transport {
    /// A managed exception being raised afresh.
    Managed(ManagedException),
    /// A still-alive foreign exception object being carried or re-raised.
    Foreign(ForeignObject),
}

impl Transport {
    /// The message of whatever the handle carries.
    pub open spec fn msg(&self) -> Seq<char> {
        match self {
            Transport::Managed(m) => m.msg(),
            Transport::Foreign(o) => o.msg(),
        }
    }

    /// Whether the handle carries a foreign-runtime exception object.
    pub open spec fn is_foreign(&self) -> bool {
        self is Foreign
    }
}

/// A managed-side wrapper owning a foreign exception object caught at the
/// boundary.  Dropping or destroying the wrapper releases the object; handing
/// it back for a re-raise moves the object out, so ownership is never shared.
#[derive(Debug)]
pub struct ForeignException {
    object: ForeignObject,
}

impl ForeignException {
    /// The owned foreign object's identity.
    pub closed spec fn object(&self) -> ForeignObject {
        self.object
    }

    /// The wrapper that owns `object`.
    pub closed spec fn wrapping(object: ForeignObject) -> ForeignException {
        ForeignException { object }
    }

    /// Wraps a foreign exception object caught at the boundary.
    pub fn wrap(object: ForeignObject) -> (r: ForeignException)
        ensures
            r == ForeignException::wrapping(object),
    {
        ForeignException { object }
    }

    /// Releases the wrapped object through the foreign runtime's destruction
    /// entry point, exactly once.
    pub fn destroy(self) {
        self.object.destroy()
    }

    /// Hands the still-alive object back, for the re-raise transport.
    pub fn into_object(self) -> (r: ForeignObject)
        ensures
            r == self.object(),
    {
        self.object
    }
}

impl Exception for ForeignException {
    open spec fn msg(&self) -> Seq<char> {
        self.object().msg()
    }

    open spec fn foreign(&self) -> Option<ForeignObject> {
        Some(self.object())
    }

    fn what(&self) -> (r: &str)
        ensures
            r@ == self.msg(),
    {
        self.object.message()
    }

    fn take_foreign(self) -> (r: Result<ForeignObject, Self>) {
        Ok(self.into_object())
    }
}

/// A caught exception as user code receives it from a protected call: either
/// the reconstituted managed value, or a wrapper owning the foreign object.
#[derive(Debug)]
pub enum Caught {
    /// The exception was raised by managed code.
    Managed(ManagedException),
    /// The exception came out of the foreign runtime itself.
    Foreign(ForeignException),
}

/// What catching a handle yields: the managed payload reconstituted as it
/// was erased, or the foreign object wrapped — never copied, never re-tagged.
pub open spec fn caught_of(t: Transport) -> Caught {
    match t {
        Transport::Managed(m) => Caught::Managed(m),
        Transport::Foreign(o) => Caught::Foreign(ForeignException::wrapping(o)),
    }
}

/// A wrapper owns exactly the object it was given.
pub broadcast proof fn lemma_wrapping_object(o: ForeignObject)
    ensures
        (#[trigger] ForeignException::wrapping(o)).object() == o,
{
}

/// Wrapping is determined by the owned object, so re-wrapping what a wrapper
/// owns gives back that same wrapper.
pub broadcast proof fn lemma_wrapping_exact(w: ForeignException)
    ensures
        ForeignException::wrapping(#[trigger] w.object()) == w,
{
}

impl Caught {
    /// The caught exception's message.
    pub open spec fn msg(&self) -> Seq<char> {
        match self {
            Caught::Managed(m) => m.msg(),
            Caught::Foreign(f) => f.msg(),
        }
    }

    /// Whether this value still owns a live foreign exception object, which
    /// decides the transport a re-raise must use.
    pub open spec fn is_foreign(&self) -> bool {
        self is Foreign
    }

    /// The transport a raise of this value must use: re-raise of the owned
    /// foreign object in place, or fresh-raise of the managed payload.
    pub open spec fn transport(self) -> Transport {
        match self {
            Caught::Managed(m) => Transport::Managed(m),
            Caught::Foreign(f) => Transport::Foreign(f.object()),
        }
    }

    /// Erases this caught value back to the handle that carries it across
    /// the boundary, choosing the origin-correct transport.
    pub fn into_transport(self) -> (t: Transport)
        ensures
            t == self.transport(),
    {
        match self {
            Caught::Managed(m) => Transport::Managed(m),
            Caught::Foreign(f) => Transport::Foreign(f.into_object()),
        }
    }

    /// The caught exception's description, wherever it came from: a managed
    /// value reports its own message, a foreign object is asked through the
    /// runtime's message-extraction entry point.
    pub fn what(&self) -> (r: &str)
        ensures
            r@ == self.msg(),
    {
        match self {
            Caught::Managed(m) => m.what(),
            Caught::Foreign(f) => f.what(),
        }
    }
}

/// Reconstitutes the capability value from a handle the trampoline caught.
pub fn resurrect(t: Transport) -> (r: Caught)
    ensures
        r == caught_of(t),
{
    match t {
        Transport::Managed(m) => Caught::Managed(m),
        Transport::Foreign(o) => Caught::Foreign(ForeignException { object: o }),
    }
}

} // verus!
