//! Mapping the request of a service.

use crate::service::Service;
use vstd::prelude::*;

verus! {

/// A service whose request is passed through a function before the inner
/// service sees it. The function runs inside `call`, so the operation is
/// the inner service's own.
#[derive(Clone, Copy)]
pub struct MapRequest<S, F> {
    pub service: S,
    pub f: F,
}

impl<S, F> MapRequest<S, F> {
    pub fn new(service: S, f: F) -> (map_request: Self)
        ensures
            map_request.service == service,
            map_request.f == f,
    {
        Self { service, f }
    }
}

impl<'f, S, F, R1, R2> Service<'f, R1> for MapRequest<S, F> where
    S: Service<'f, R2>,
    F: Fn(R1) -> R2,
 {
    type Response = S::Response;

    type Error = S::Error;

    type Future = S::Future;

    open spec fn accepts(&self, req: R1) -> bool {
        call_requires(self.f, (req,)) && forall|inner: R2|
            call_ensures(self.f, (req,), inner) ==> self.service.accepts(inner)
    }

    open spec fn responds(&self, req: R1, out: Result<S::Response, S::Error>) -> bool {
        exists|inner: R2| call_ensures(self.f, (req,), inner) && self.service.responds(inner, out)
    }

    open spec fn starts(&self, req: R1, fut: S::Future) -> bool {
        exists|inner: R2| call_ensures(self.f, (req,), inner) && self.service.starts(inner, fut)
    }

    fn call(&'f self, req: R1) -> (fut: S::Future) {
        self.service.call((self.f)(req))
    }
}

} // verus!
