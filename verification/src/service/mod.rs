//! Services and their combinators.

use crate::task::Operation;
use std::rc::Rc;
use std::sync::Arc;
use vstd::prelude::*;

pub mod and_then;
pub mod boxed;
pub mod boxed_local;
pub mod ext;
pub mod future;
pub mod map_err;
pub mod map_ok;
pub mod map_request;
pub mod map_result;
pub mod or_else;
pub mod service_fn;
pub mod state;
pub mod then;

pub use and_then::AndThen;
pub use boxed::{ArcService, BoxService};
pub use boxed_local::{LocalBoxService, RcService};
pub use ext::{ServiceBoxExt, ServiceExt};
pub use map_err::MapErr;
pub use map_ok::MapOk;
pub use map_request::MapRequest;
pub use map_result::MapResult;
pub use or_else::OrElse;
pub use service_fn::{service_fn, ServiceFn};
pub use then::Then;

verus! {

/// A capability that turns a request into an operation resolving to a
/// response or an error. Calling borrows the service and consumes the
/// request; the operation lives no longer than that borrow.
pub trait Service<'f, Req> {
    type Response;

    type Error;

    type Future: Operation<Output = Result<Self::Response, Self::Error>>;

    /// Whether the service may be called with `req`.
    spec fn accepts(&self, req: Req) -> bool;

    /// Whether `out` is an outcome the service may produce for `req`.
    spec fn responds(&self, req: Req, out: Result<Self::Response, Self::Error>) -> bool;

    /// Whether `fut` is an operation that a call of the service with `req`
    /// may start.
    spec fn starts(&self, req: Req, fut: Self::Future) -> bool;

    /// Starts the operation for `req`, and hands out that operation. It can
    /// be pulled, and resolves only to outcomes the service produces for
    /// `req`.
    fn call(&'f self, req: Req) -> (fut: Self::Future)
        requires
            self.accepts(req),
        ensures
            self.starts(req, fut),
            fut.pollable(),
            forall|out: Result<Self::Response, Self::Error>|
                fut.admits(out) ==> self.responds(req, out),
    ;
}

impl<'a, 'f, S, Req> Service<'f, Req> for &'a S where S: Service<'f, Req>, 'a: 'f {
    type Response = S::Response;

    type Error = S::Error;

    type Future = S::Future;

    open spec fn accepts(&self, req: Req) -> bool {
        (**self).accepts(req)
    }

    open spec fn responds(&self, req: Req, out: Result<S::Response, S::Error>) -> bool {
        (**self).responds(req, out)
    }

    open spec fn starts(&self, req: Req, fut: S::Future) -> bool {
        (**self).starts(req, fut)
    }

    fn call(&'f self, req: Req) -> (fut: S::Future) {
        (**self).call(req)
    }
}

impl<'a, 'f, S, Req> Service<'f, Req> for &'a mut S where S: Service<'f, Req>, 'a: 'f {
    type Response = S::Response;

    type Error = S::Error;

    type Future = S::Future;

    open spec fn accepts(&self, req: Req) -> bool {
        (**self).accepts(req)
    }

    open spec fn responds(&self, req: Req, out: Result<S::Response, S::Error>) -> bool {
        (**self).responds(req, out)
    }

    open spec fn starts(&self, req: Req, fut: S::Future) -> bool {
        (**self).starts(req, fut)
    }

    fn call(&'f self, req: Req) -> (fut: S::Future) {
        (**self).call(req)
    }
}

impl<'f, S, Req> Service<'f, Req> for Box<S> where S: Service<'f, Req> {
    type Response = S::Response;

    type Error = S::Error;

    type Future = S::Future;

    open spec fn accepts(&self, req: Req) -> bool {
        (**self).accepts(req)
    }

    open spec fn responds(&self, req: Req, out: Result<S::Response, S::Error>) -> bool {
        (**self).responds(req, out)
    }

    open spec fn starts(&self, req: Req, fut: S::Future) -> bool {
        (**self).starts(req, fut)
    }

    fn call(&'f self, req: Req) -> (fut: S::Future) {
        (**self).call(req)
    }
}

impl<'f, S, Req> Service<'f, Req> for Rc<S> where S: Service<'f, Req> {
    type Response = S::Response;

    type Error = S::Error;

    type Future = S::Future;

    open spec fn accepts(&self, req: Req) -> bool {
        (**self).accepts(req)
    }

    open spec fn responds(&self, req: Req, out: Result<S::Response, S::Error>) -> bool {
        (**self).responds(req, out)
    }

    open spec fn starts(&self, req: Req, fut: S::Future) -> bool {
        (**self).starts(req, fut)
    }

    fn call(&'f self, req: Req) -> (fut: S::Future) {
        (**self).call(req)
    }
}

impl<'f, S, Req> Service<'f, Req> for Arc<S> where S: Service<'f, Req> {
    type Response = S::Response;

    type Error = S::Error;

    type Future = S::Future;

    open spec fn accepts(&self, req: Req) -> bool {
        (**self).accepts(req)
    }

    open spec fn responds(&self, req: Req, out: Result<S::Response, S::Error>) -> bool {
        (**self).responds(req, out)
    }

    open spec fn starts(&self, req: Req, fut: S::Future) -> bool {
        (**self).starts(req, fut)
    }

    fn call(&'f self, req: Req) -> (fut: S::Future) {
        (**self).call(req)
    }
}

} // verus!
