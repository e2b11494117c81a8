//! The two layers every stack is made of: the one that changes nothing and
//! the one that puts two layers together.

use vstd::prelude::*;
use crate::service::Layer;

verus! {

/// The layer that hands a service back as it is.
pub struct Identity {
    _p: (),
}

impl Identity {
    /// The layer that changes nothing.
    pub closed spec fn new_spec() -> Self {
        Identity { _p: () }
    }

    /// The layer that changes nothing.
    pub fn new() -> (layer: Self)
        ensures
            layer == Self::new_spec(),
    {
        Identity { _p: () }
    }
}

impl Default for Identity {
    fn default() -> (layer: Self)
        ensures
            layer == Self::new_spec(),
    {
        Self::new()
    }
}

impl<S> Layer<S> for Identity {
    type Service = S;

    open spec fn wrapped(&self, service: S) -> S {
        service
    }

    fn layer(&self, inner: S) -> (out: S) {
        inner
    }
}

/// Two layers as one: a service is wrapped in `inner`, and what comes out in
/// `outer`.
pub struct Stack<I, O> {
    pub inner: I,
    pub outer: O,
}

impl<I, O> Stack<I, O> {
    /// The two layers as one.
    pub open spec fn new_spec(inner: I, outer: O) -> Self {
        Stack { inner, outer }
    }

    /// The two layers as one.
    pub fn new(inner: I, outer: O) -> (stack: Stack<I, O>)
        ensures
            stack == Self::new_spec(inner, outer),
    {
        Stack { inner, outer }
    }
}

impl<S, I, O> Layer<S> for Stack<I, O> where I: Layer<S>, O: Layer<I::Service> {
    type Service = O::Service;

    open spec fn wrapped(&self, service: S) -> O::Service {
        self.outer.wrapped(self.inner.wrapped(service))
    }

    fn layer(&self, service: S) -> (out: O::Service) {
        let inner = self.inner.layer(service);
        self.outer.layer(inner)
    }
}

/// Read access to a part of a value.
pub trait ParamRef<T> {
    /// The part.
    fn param_ref(&self) -> &T;
}

/// Write access to a part of a value.
pub trait ParamMut<T> {
    /// The part.
    fn param_mut(&mut self) -> &mut T;
}

} // verus!
