//! Services, the layers that wrap them, and the builder that stacks layers.

use vstd::prelude::*;
use crate::util::{Identity, Stack};

verus! {

/// Something that answers requests.
pub trait Service<Request> {
    /// What a request is answered with.
    type Response;

    /// What goes wrong.
    type Error;

    /// Whether `answer` is an answer that this service may give to `req`.
    spec fn answers(&self, req: Request, answer: Result<Self::Response, Self::Error>) -> bool;

    /// Answers `req`.
    fn call(&mut self, req: Request) -> (answer: Result<Self::Response, Self::Error>)
        ensures
            old(self).answers(req, answer),
    ;
}

/// Something that makes a service out of another.
pub trait Layer<S> {
    /// The service that comes out.
    type Service;

    /// The service that `layer` makes of `service`.
    spec fn wrapped(&self, service: S) -> Self::Service;

    /// Wraps `service`.
    fn layer(&self, service: S) -> (out: Self::Service)
        ensures
            out == self.wrapped(service),
    ;
}

/// A list of services, each with its position.
pub struct SvcList<S> {
    inner: Vec<(usize, S)>,
}

impl<S> SvcList<S> {
    /// The services in their order.
    pub closed spec fn view(&self) -> Seq<S> {
        self.inner@.map_values(|e: (usize, S)| e.1)
    }

    /// The number kept with each service, in the order of the services.
    pub closed spec fn numbers(&self) -> Seq<usize> {
        self.inner@.map_values(|e: (usize, S)| e.0)
    }

    /// The list of `services`, numbered from zero.
    pub fn new(services: Vec<S>) -> (list: Self)
        ensures
            list@ == services@,
            list.numbers().len() == services@.len(),
            forall|k: int| 0 <= k < services@.len() ==> #[trigger] list.numbers()[k] == k,
    {
        let mut services = services;
        let ghost all = services@;
        let mut back: Vec<(usize, S)> = Vec::new();
        while services.len() > 0
            invariant
                services@.len() + back@.len() == all.len(),
                services@ == all.take(services@.len() as int),
                forall|k: int|
                    0 <= k < back@.len() ==> (#[trigger] back@[k]).1 == all[all.len() - 1 - k]
                        && back@[k].0 == all.len() - 1 - k,
            decreases services.len(),
        {
            let position = services.len() - 1;
            let ghost before = services@;
            match services.pop() {
                Some(service) => {
                    assert(services@ =~= all.take(services@.len() as int));
                    assert(service == all[position as int]);
                    back.push((position, service));
                },
                None => {},
            }
        }
        let mut inner: Vec<(usize, S)> = Vec::new();
        while back.len() > 0
            invariant
                back@.len() + inner@.len() == all.len(),
                forall|k: int|
                    0 <= k < back@.len() ==> (#[trigger] back@[k]).1 == all[all.len() - 1 - k]
                        && back@[k].0 == all.len() - 1 - k,
                forall|k: int|
                    0 <= k < inner@.len() ==> (#[trigger] inner@[k]).1 == all[k] && inner@[k].0
                        == k,
            decreases back.len(),
        {
            match back.pop() {
                Some(entry) => {
                    inner.push(entry);
                },
                None => {},
            }
        }
        let list = SvcList { inner };
        assert(list@ =~= all);
        list
    }

    /// The number of services.
    pub fn len(&self) -> (n: usize)
        ensures
            n == self@.len(),
    {
        self.inner.len()
    }

    /// Service `i`.
    pub fn get(&self, i: usize) -> (service: Option<&S>)
        ensures
            match service {
                Some(s) => i < self@.len() && *s == self@[i as int],
                None => i >= self@.len(),
            },
    {
        if i < self.inner.len() {
            Some(&self.inner[i].1)
        } else {
            None
        }
    }

    /// The number kept with service `i`.
    pub fn number(&self, i: usize) -> (number: Option<usize>)
        ensures
            self.numbers().len() == self@.len(),
            match number {
                Some(n) => i < self@.len() && n == self.numbers()[i as int],
                None => i >= self@.len(),
            },
    {
        if i < self.inner.len() {
            Some(self.inner[i].0)
        } else {
            None
        }
    }
}

/// Stacks layers and, in the end, wraps a service in them.
pub struct ServiceBuilder<L> {
    layer: L,
}

impl ServiceBuilder<Identity> {
    /// A builder without layers.
    pub fn new() -> (builder: Self)
        ensures
            builder.stack() == Identity::new_spec(),
    {
        ServiceBuilder { layer: Identity::new() }
    }
}

impl Default for ServiceBuilder<Identity> {
    fn default() -> (builder: Self)
        ensures
            builder.stack() == Identity::new_spec(),
    {
        Self::new()
    }
}

impl<L> ServiceBuilder<L> {
    /// The layers stacked so far.
    pub closed spec fn stack(&self) -> L {
        self.layer
    }

    /// Adds a layer. It goes inside the layers added before it: of all
    /// layers, the one added first meets a request first.
    pub fn layer<T>(self, s: T) -> (builder: ServiceBuilder<Stack<T, L>>)
        ensures
            builder.stack() == Stack::new_spec(s, self.stack()),
    {
        ServiceBuilder { layer: Stack::new(s, self.layer) }
    }

    /// Wraps `s` in the layers of the stack.
    pub fn service<S>(&self, s: S) -> (out: L::Service) where L: Layer<S>
        ensures
            out == self.stack().wrapped(s),
    {
        self.layer.layer(s)
    }
}

/// Layers compose in the order they were added: with `first` added before
/// `second` on a builder without layers, a service is wrapped in `second`
/// and the result in `first`, so that `first` meets a request first.
pub proof fn lemma_layers_compose<S, X, Y>(first: X, second: Y, service: S) where
    Y: Layer<S>,
    X: Layer<Y::Service>,

    ensures
        Stack::new_spec(second, Stack::new_spec(first, Identity::new_spec())).wrapped(service)
            == first.wrapped(second.wrapped(service)),
{
}

} // verus!
