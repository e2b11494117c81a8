//! Discovery of services, and the balancer that is to use it.

use vstd::prelude::*;
use vstd::pervasive::cloned;
use crate::error::GatewayError;
use crate::service::SvcList;

verus! {

/// A change in the set of services.
pub enum DiscoverChange<K, S> {
    /// A service has appeared.
    Add(K, S),
    /// A service has gone.
    Remove(K, S),
    /// Nothing has changed.
    Unchanged,
}

/// Something that finds services.
pub trait Discover {
    /// What tells services apart.
    type Key;

    /// What is found.
    type Service;

    /// What goes wrong.
    type Error;

    /// Looks for a change.
    fn discover(&self) -> Result<Option<DiscoverChange<Self::Key, Self::Service>>, Self::Error>;
}

/// A discovery that always finds the one service it was given.
pub struct DummyDiscover<S> {
    pub data: S,
}

impl<S: Clone> Discover for DummyDiscover<S> {
    type Key = ();

    type Service = S;

    type Error = GatewayError;

    fn discover(&self) -> (found: Result<Option<DiscoverChange<(), S>>, GatewayError>)
        ensures
            found matches Ok(Some(DiscoverChange::Add(_, service))) && cloned(self.data, service),
    {
        Ok(Some(DiscoverChange::Add((), self.data.clone())))
    }
}

/// A load balancer: a discovery and the services it has found.
pub struct Balance<D, S> where D: Discover {
    pub discover: D,
    pub services: SvcList<S>,
}

} // verus!
