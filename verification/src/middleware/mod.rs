//! Middleware: a transformation from one service to another, applied once
//! when a pipeline is put together.

use vstd::prelude::*;

pub mod middleware_fn;

pub use middleware_fn::{middleware_fn, MiddlewareFn};

verus! {

/// A one-time transformation that consumes a service and gives a new one.
/// No request flows through it: what is to happen per request belongs in
/// the service it gives.
pub trait Middleware<S>: Sized {
    type Service;

    /// Whether the middleware may be applied to `service`.
    spec fn applies(&self, service: S) -> bool;

    /// Whether applying the middleware to `service` may give `out`.
    spec fn transforms(&self, service: S, out: Self::Service) -> bool;

    fn transform(self, service: S) -> (out: Self::Service)
        requires
            self.applies(service),
        ensures
            self.transforms(service, out),
    ;
}

} // verus!
