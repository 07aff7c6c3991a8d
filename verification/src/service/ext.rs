//! The combinators as methods of every service.

use crate::middleware::Middleware;
use crate::service::and_then::AndThen;
use crate::service::boxed::{ArcService, BoxFuture, BoxService};
use crate::service::boxed_local::{LocalBoxFuture, LocalBoxService, RcService};
use crate::service::map_err::MapErr;
use crate::service::map_ok::MapOk;
use crate::service::map_request::MapRequest;
use crate::service::map_result::MapResult;
use crate::service::or_else::OrElse;
use crate::service::then::Then;
use crate::service::Service;
use vstd::prelude::*;

verus! {

/// What every service can be turned into.
pub trait ServiceExt<'f, Req>: Service<'f, Req> + Sized {
    /// Applies `middleware` to this service. This happens once, when the
    /// pipeline is put together; no request is involved.
    fn with<T>(self, middleware: T) -> (out: T::Service) where T: Middleware<Self>
        requires
            middleware.applies(self),
        ensures
            middleware.transforms(self, out),
    {
        middleware.transform(self)
    }

    /// This service followed by `f`, whatever its outcome.
    fn then<F>(self, f: F) -> (out: Then<Self, F>)
        ensures
            out.service == self,
            out.f == f,
    {
        Then::new(self, f)
    }

    /// This service followed by `f` on a response.
    fn and_then<F>(self, f: F) -> (out: AndThen<Self, F>)
        ensures
            out.service == self,
            out.f == f,
    {
        AndThen::new(self, f)
    }

    /// This service followed by `f` on a failure.
    fn or_else<F>(self, f: F) -> (out: OrElse<Self, F>)
        ensures
            out.service == self,
            out.f == f,
    {
        OrElse::new(self, f)
    }

    /// This service with its outcome passed through `f`.
    fn map<F>(self, f: F) -> (out: MapResult<Self, F>)
        ensures
            out.service == self,
            out.f == f,
    {
        MapResult::new(self, f)
    }

    /// This service with its response passed through `f`.
    fn map_ok<F>(self, f: F) -> (out: MapOk<Self, F>)
        ensures
            out.service == self,
            out.f == f,
    {
        MapOk::new(self, f)
    }

    /// This service with its failure passed through `f`.
    fn map_err<F>(self, f: F) -> (out: MapErr<Self, F>)
        ensures
            out.service == self,
            out.f == f,
    {
        MapErr::new(self, f)
    }

    /// This service with its request passed through `f`.
    fn map_request<F>(self, f: F) -> (out: MapRequest<Self, F>)
        ensures
            out.service == self,
            out.f == f,
    {
        MapRequest::new(self, f)
    }
}

impl<'f, S, Req> ServiceExt<'f, Req> for S where S: Service<'f, Req> {
}

/// What a service can be turned into when it gives the same response and
/// failure type for every borrow: a wrapper that hides its type.
pub trait ServiceBoxExt<Req, Res, Fail>: for <'g>Service<
    'g,
    Req,
    Response = Res,
    Error = Fail,
> + Sized {
    /// This service with its type hidden; one owner, fit to cross threads.
    fn boxed(self) -> (out: BoxService<Req, Res, Fail>) where
        Self: Send + Sync + 'static,
        for <'g><Self as Service<'g, Req>>::Future: Send,

        ensures
            forall|req: Req| out.service.any_accepts(req) == self.accepts(req),
            forall|req: Req, res: Result<Res, Fail>|
                out.service.any_responds(req, res) == self.responds(req, res),
            forall|req: Req, fut: BoxFuture<'_, Result<Res, Fail>>|
                #[trigger] out.service.any_starts(req, fut) == crate::service::boxed::starts_boxed(
                    self,
                    req,
                    fut,
                ),
    ;

    /// This service with its type hidden; one owner, one thread.
    fn boxed_local(self) -> (out: LocalBoxService<Req, Res, Fail>) where Self: 'static
        ensures
            forall|req: Req| out.service.any_accepts(req) == self.accepts(req),
            forall|req: Req, res: Result<Res, Fail>|
                out.service.any_responds(req, res) == self.responds(req, res),
            forall|req: Req, fut: LocalBoxFuture<'_, Result<Res, Fail>>|
                #[trigger] out.service.any_starts(req, fut) == crate::service::boxed_local::starts_boxed(
                    self,
                    req,
                    fut,
                ),
    ;

    /// This service with its type hidden, shared by reference count across
    /// threads.
    fn boxed_arc(self) -> (out: ArcService<Req, Res, Fail>) where
        Self: Send + Sync + 'static,
        for <'g><Self as Service<'g, Req>>::Future: Send,

        ensures
            forall|req: Req| out.service.any_accepts(req) == self.accepts(req),
            forall|req: Req, res: Result<Res, Fail>|
                out.service.any_responds(req, res) == self.responds(req, res),
            forall|req: Req, fut: BoxFuture<'_, Result<Res, Fail>>|
                #[trigger] out.service.any_starts(req, fut) == crate::service::boxed::starts_boxed(
                    self,
                    req,
                    fut,
                ),
    ;

    /// This service with its type hidden, shared by reference count on one
    /// thread.
    fn boxed_rc(self) -> (out: RcService<Req, Res, Fail>) where Self: 'static
        ensures
            forall|req: Req| out.service.any_accepts(req) == self.accepts(req),
            forall|req: Req, res: Result<Res, Fail>|
                out.service.any_responds(req, res) == self.responds(req, res),
            forall|req: Req, fut: LocalBoxFuture<'_, Result<Res, Fail>>|
                #[trigger] out.service.any_starts(req, fut) == crate::service::boxed_local::starts_boxed(
                    self,
                    req,
                    fut,
                ),
    ;
}

impl<S, Req, Res, Fail> ServiceBoxExt<Req, Res, Fail> for S where
    S: for <'g>Service<'g, Req, Response = Res, Error = Fail>,
 {
    fn boxed(self) -> (out: BoxService<Req, Res, Fail>) where
        Self: Send + Sync + 'static,
        for <'g><Self as Service<'g, Req>>::Future: Send,
     {
        BoxService::new(self)
    }

    fn boxed_local(self) -> (out: LocalBoxService<Req, Res, Fail>) where Self: 'static {
        LocalBoxService::new(self)
    }

    fn boxed_arc(self) -> (out: ArcService<Req, Res, Fail>) where
        Self: Send + Sync + 'static,
        for <'g><Self as Service<'g, Req>>::Future: Send,
     {
        ArcService::new(self)
    }

    fn boxed_rc(self) -> (out: RcService<Req, Res, Fail>) where Self: 'static {
        RcService::new(self)
    }
}

} // verus!
