use std::cell::Cell;

use unwind_bridge::exception::{Caught, Exception, ForeignException, ForeignObject,
    ManagedException};
use unwind_bridge::protect::{try_catch, Outcome};
use unwind_bridge::raise::{raise_foreign, throw, Rethrow, UnwrapOrRethrow};

struct TestException {
    message: String,
}

impl Exception for TestException {
    fn what(&self) -> &str {
        self.message.as_ref()
    }

    fn take_foreign(self) -> Result<ForeignObject, Self> {
        Err(self)
    }
}

struct Droppable<'a> {
    dropped: &'a mut bool,
}

impl<'a> Drop for Droppable<'a> {
    fn drop(&mut self) {
        *self.dropped = true
    }
}

#[test]
fn test_cpp_unwind() {
    let result: Result<(), Caught> = try_catch(|| {
        throw(TestException { message: "Hello, World!".into() })
    });
    assert!(result.is_err());
    assert_eq!(result.unwrap_err().what(), "Hello, World!");
}

#[test]
fn test_exception_unwind_calls_drop() {
    let mut dropped = false;
    let result: Result<(), Caught> = try_catch(|| {
        let droppable = Droppable { dropped: &mut dropped };
        assert!(!*droppable.dropped);
        throw(TestException { message: "Dropped!".into() })
    });
    assert!(result.is_err());
    assert!(dropped);
}

#[test]
fn test_catch_cpp_exception() {
    let result: Result<(), Caught> = try_catch(|| {
        raise_foreign(ForeignObject::new("Hello from C++!".into()))
    });
    assert!(result.is_err());
    assert_eq!(result.unwrap_err().what(), "Hello from C++!");
}

#[test]
fn test_rethrow_rust() {
    let r2: Result<(), Caught> = try_catch(|| {
        let r1: Result<(), Caught> = try_catch(|| {
            throw(TestException { message: "Rust Exception".into() })
        });
        assert!(r1.is_err());
        r1.unwrap_err().rethrow()
    });
    assert!(r2.is_err());
    assert_eq!(r2.unwrap_err().what(), "Rust Exception");
}

#[test]
fn test_rethrow_cpp() {
    let r2: Result<(), Caught> = try_catch(|| {
        let r1: Result<(), Caught> = try_catch(|| {
            raise_foreign(ForeignObject::new("C++ Exception".into()))
        });
        assert!(r1.is_err());
        r1.unwrap_err().rethrow()
    });
    assert!(r2.is_err());
    assert_eq!(r2.unwrap_err().what(), "C++ Exception");
}

#[test]
fn test_unwrap_or_rethrow() {
    let r2: Result<(), Caught> = try_catch(|| {
        let r1: Result<(), Caught> = try_catch(|| {
            throw(TestException { message: "Rust Exception".into() })
        });
        r1.unwrap_or_rethrow()
    });
    assert!(r2.is_err());
    assert_eq!(r2.unwrap_err().what(), "Rust Exception");
}

#[test]
fn test_success_value_runs_once() {
    let runs = Cell::new(0);
    let result: Result<u64, Caught> = try_catch(|| {
        runs.set(runs.get() + 1);
        Outcome::Done(42)
    });
    assert_eq!(runs.get(), 1);
    assert!(matches!(result, Ok(42)));
}

#[test]
fn test_success_touches_no_exception() {
    let result: Result<String, Caught> = try_catch(|| Outcome::Done("fine".into()));
    assert_eq!(result.unwrap(), "fine");
}

#[test]
fn test_throw_library_exception() {
    let result: Result<(), Caught> = try_catch(|| {
        throw(ManagedException::new("boxed".into()))
    });
    assert_eq!(result.unwrap_err().what(), "boxed");
}

#[test]
fn test_empty_message() {
    let result: Result<(), Caught> = try_catch(|| {
        throw(TestException { message: "".into() })
    });
    assert_eq!(result.unwrap_err().what(), "");
}

#[test]
fn test_caught_origin_is_kept() {
    let managed: Result<(), Caught> = try_catch(|| {
        throw(TestException { message: "from managed code".into() })
    });
    assert!(matches!(managed, Err(Caught::Managed(_))));

    let foreign: Result<(), Caught> = try_catch(|| {
        raise_foreign(ForeignObject::new("from the foreign runtime".into()))
    });
    assert!(matches!(foreign, Err(Caught::Foreign(_))));
}

#[test]
fn test_rethrow_managed_keeps_origin() {
    let r2: Result<(), Caught> = try_catch(|| {
        let r1: Result<(), Caught> = try_catch(|| {
            throw(TestException { message: "still managed".into() })
        });
        r1.unwrap_err().rethrow()
    });
    assert!(matches!(r2, Err(Caught::Managed(_))));
}

#[test]
fn test_rethrow_foreign_keeps_origin() {
    let r2: Result<(), Caught> = try_catch(|| {
        let r1: Result<(), Caught> = try_catch(|| {
            raise_foreign(ForeignObject::new("still foreign".into()))
        });
        r1.unwrap_err().rethrow()
    });
    assert!(matches!(r2, Err(Caught::Foreign(_))));
}

#[test]
fn test_unwrap_or_rethrow_success_passes_through() {
    let r: Result<u64, Caught> = Ok(5);
    match r.unwrap_or_rethrow() {
        Outcome::Done(v) => assert_eq!(v, 5),
        Outcome::Raised(_) => panic!("a success value must pass through"),
    }
}

#[test]
fn test_foreign_destroyed_once_per_cycle() {
    let cycles = 5;
    let mut destroyed = 0;
    for i in 0..cycles {
        let message = format!("cycle {}", i);
        let result: Result<(), Caught> = try_catch(|| {
            raise_foreign(ForeignObject::new(message))
        });
        match result.unwrap_err() {
            Caught::Foreign(wrapper) => {
                assert_eq!(wrapper.what(), format!("cycle {}", i));
                wrapper.destroy();
                destroyed += 1;
            }
            Caught::Managed(_) => panic!("a foreign raise must be caught as foreign"),
        }
    }
    assert_eq!(destroyed, cycles);
}

#[test]
fn test_foreign_rethrow_reuses_the_object() {
    // A round trip through a second boundary hands the same object back:
    // wrap, re-raise, catch, and destroy it exactly once at the end.
    let caught: Result<(), Caught> = try_catch(|| {
        raise_foreign(ForeignObject::new("one object".into()))
    });
    let again: Result<(), Caught> = try_catch(|| caught.unwrap_err().rethrow());
    match again.unwrap_err() {
        Caught::Foreign(wrapper) => {
            assert_eq!(wrapper.what(), "one object");
            wrapper.into_object().destroy();
        }
        Caught::Managed(_) => panic!("re-raising a foreign exception must keep its origin"),
    }
}

#[test]
fn test_wrap_and_unwrap_foreign_object() {
    let wrapper = ForeignException::wrap(ForeignObject::new("kept intact".into()));
    assert_eq!(wrapper.what(), "kept intact");
    let object = wrapper.into_object();
    assert_eq!(object.message(), "kept intact");
}

#[test]
fn test_nested_unwrap_propagates_message() {
    let outer: Result<u64, Caught> = try_catch(|| {
        let inner: Result<u64, Caught> = try_catch(|| {
            throw(TestException { message: "inner says hi".into() })
        });
        inner.unwrap_or_rethrow()
    });
    assert_eq!(outer.unwrap_err().what(), "inner says hi");
}
