//! A middleware made of a function.

use crate::middleware::Middleware;
use vstd::prelude::*;

verus! {

/// Makes a middleware of a function from a service to a service.
pub fn middleware_fn<F>(f: F) -> (middleware: MiddlewareFn<F>)
    ensures
        middleware.f == f,
{
    MiddlewareFn { f }
}

/// The middleware that [`middleware_fn`] makes.
#[derive(Clone, Copy)]
pub struct MiddlewareFn<F> {
    pub f: F,
}

impl<F, S1, S2> Middleware<S1> for MiddlewareFn<F> where F: FnOnce(S1) -> S2 {
    type Service = S2;

    open spec fn applies(&self, service: S1) -> bool {
        call_requires(self.f, (service,))
    }

    open spec fn transforms(&self, service: S1, out: S2) -> bool {
        call_ensures(self.f, (service,), out)
    }

    /// Runs the function on `service`.
    fn transform(self, service: S1) -> (out: S2) {
        (self.f)(service)
    }
}

} // verus!
