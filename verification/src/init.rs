//! Initializers: what a managed cell calls to produce its value when it is
//! first needed.
use vstd::prelude::*;
use std::marker::PhantomData;

verus! {

/// Something that produces a cell's value on demand.
pub trait Initializer {
    type Value;

    /// Whether a call may be made.
    spec fn ready(&self) -> bool;

    /// Whether a call may return `value`.
    spec fn produces(&self, value: Self::Value) -> bool;

    fn call(&self) -> (value: Self::Value)
        requires
            self.ready(),
        ensures
            self.produces(value),
    ;
}

/// An initializer that calls a function.
pub struct FnInit<F> {
    pub f: F,
}

impl<R, F: Fn() -> R> Initializer for FnInit<F> {
    type Value = R;

    open spec fn ready(&self) -> bool {
        call_requires(self.f, ())
    }

    open spec fn produces(&self, value: R) -> bool {
        call_ensures(self.f, (), value)
    }

    fn call(&self) -> (value: R) {
        (self.f)()
    }
}

/// An initializer that produces `T::default()`.
pub struct DefaultInit<T> {
    marker: PhantomData<T>,
}

impl<T> DefaultInit<T> {
    pub fn new() -> (init: DefaultInit<T>) {
        DefaultInit { marker: PhantomData }
    }
}

impl<T: Default> Initializer for DefaultInit<T> {
    type Value = T;

    open spec fn ready(&self) -> bool {
        true
    }

    /// `value` is a value that `T::default()` may return.
    open spec fn produces(&self, value: T) -> bool {
        call_ensures(T::default, (), value)
    }

    fn call(&self) -> (value: T) {
        T::default()
    }
}

/// The initializer type of a cell built without one; it can never be called.
pub struct NoInit<T> {
    marker: PhantomData<T>,
}

impl<T> Initializer for NoInit<T> {
    type Value = T;

    open spec fn ready(&self) -> bool {
        false
    }

    open spec fn produces(&self, value: T) -> bool {
        false
    }

    fn call(&self) -> (value: T) {
        vstd::pervasive::unreached()
    }
}

} // verus!
