//! A service made of a function.

use crate::service::Service;
use crate::task::Operation;
use vstd::prelude::*;

verus! {

/// Makes a service of a function from a request to an operation.
pub fn service_fn<F>(f: F) -> (service: ServiceFn<F>)
    ensures
        service.f == f,
{
    ServiceFn { f }
}

/// The service that [`service_fn`] makes.
#[derive(Clone, Copy)]
pub struct ServiceFn<F> {
    pub f: F,
}

impl<'f, F, Fut, Req, Res, Fail> Service<'f, Req> for ServiceFn<F> where
    F: Fn(Req) -> Fut,
    Fut: Operation<Output = Result<Res, Fail>>,
 {
    type Response = Res;

    type Error = Fail;

    type Future = Fut;

    open spec fn accepts(&self, req: Req) -> bool {
        call_requires(self.f, (req,)) && forall|fut: Fut|
            call_ensures(self.f, (req,), fut) ==> fut.pollable()
    }

    open spec fn responds(&self, req: Req, out: Result<Res, Fail>) -> bool {
        exists|fut: Fut| call_ensures(self.f, (req,), fut) && fut.admits(out)
    }

    open spec fn starts(&self, req: Req, fut: Fut) -> bool {
        call_ensures(self.f, (req,), fut)
    }

    /// Runs the function on `req`.
    fn call(&'f self, req: Req) -> (fut: Fut)
        ensures
            call_ensures(self.f, (req,), fut),
    {
        (self.f)(req)
    }
}

} // verus!
