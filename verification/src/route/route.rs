//! A path with the service that is to be registered under it.

use crate::middleware::Middleware;
use crate::route::method::MethodRoute;
use crate::service::Service;
use vstd::prelude::*;

verus! {

/// What can be registered under a path: a service with its methods, or a
/// bare service, which then answers every method. `Kind` tells the two
/// apart: `()` for a service with its methods, `(Req,)` for a service of
/// requests `Req`. It is found by inference wherever one of the two fits.
pub trait IntoMethodRoute<Kind>: Sized {
    type Service;

    /// Whether the value is well formed.
    spec fn routable(&self) -> bool;

    /// Whether `route` is what this value stands for.
    spec fn routes_to(&self, route: MethodRoute<Self::Service>) -> bool;

    fn into_method_route(self) -> (route: MethodRoute<Self::Service>)
        requires
            self.routable(),
        ensures
            self.routes_to(route),
            route.methods.wf(),
    ;
}

impl<S, Req> IntoMethodRoute<(Req,)> for S where S: for <'f>Service<'f, Req> {
    type Service = S;

    open spec fn routable(&self) -> bool {
        true
    }

    open spec fn routes_to(&self, route: MethodRoute<S>) -> bool {
        route.service == *self && route.methods.listed() is None
    }

    /// A bare service answers every method.
    fn into_method_route(self) -> (route: MethodRoute<S>) {
        MethodRoute::any(self)
    }
}

impl<S> IntoMethodRoute<()> for MethodRoute<S> {
    type Service = S;

    open spec fn routable(&self) -> bool {
        self.methods.wf()
    }

    open spec fn routes_to(&self, route: MethodRoute<S>) -> bool {
        route == *self
    }

    /// A service with its methods stands for itself.
    fn into_method_route(self) -> (route: MethodRoute<S>) {
        self
    }
}

/// A service with its methods, to be mounted under a path.
#[derive(Debug, Clone)]
pub struct Route<S> {
    pub path: String,
    pub service: MethodRoute<S>,
}

impl<S> Route<S> {
    /// `service` under `path`.
    pub fn new<Kind, T>(path: String, service: T) -> (route: Self) where
        T: IntoMethodRoute<Kind, Service = S>,

        requires
            service.routable(),
        ensures
            route.path == path,
            service.routes_to(route.service),
            route.service.methods.wf(),
    {
        Self { path, service: service.into_method_route() }
    }

    /// The same path and methods for the service that `middleware` makes
    /// of this one.
    pub fn with<T>(self, middleware: T) -> (route: Route<T::Service>) where T: Middleware<S>
        requires
            middleware.applies(self.service.service),
        ensures
            route.path == self.path,
            route.service.methods == self.service.methods,
            middleware.transforms(self.service.service, route.service.service),
    {
        Route { path: self.path, service: self.service.with(middleware) }
    }
}

} // verus!
