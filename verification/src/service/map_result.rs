//! Mapping the whole outcome of a service.

use crate::service::Service;
use crate::task::{Operation, Poll};
use core::task::Context;
use vstd::prelude::*;

verus! {

/// A service whose outcome, response or failure, is passed through a
/// function once the inner operation has resolved.
#[derive(Clone, Copy)]
pub struct MapResult<S, F> {
    pub service: S,
    pub f: F,
}

impl<S, F> MapResult<S, F> {
    pub fn new(service: S, f: F) -> (map_result: Self)
        ensures
            map_result.service == service,
            map_result.f == f,
    {
        Self { service, f }
    }
}

impl<'f, S, F, Req, Res, Fail> Service<'f, Req> for MapResult<S, F> where
    S: Service<'f, Req>,
    F: Fn(Result<S::Response, S::Error>) -> Result<Res, Fail> + 'f,
 {
    type Response = Res;

    type Error = Fail;

    type Future = MapFuture<'f, S::Future, F>;

    open spec fn accepts(&self, req: Req) -> bool {
        self.service.accepts(req) && forall|r: Result<S::Response, S::Error>|
            self.service.responds(req, r) ==> call_requires(self.f, (r,))
    }

    open spec fn responds(&self, req: Req, out: Result<Res, Fail>) -> bool {
        exists|r: Result<S::Response, S::Error>|
            self.service.responds(req, r) && call_ensures(self.f, (r,), out)
    }

    open spec fn starts(&self, req: Req, fut: MapFuture<'f, S::Future, F>) -> bool {
        fut.f == &self.f && self.service.starts(req, fut.fut)
    }

    /// Starts the inner service on `req`.
    fn call(&'f self, req: Req) -> (fut: MapFuture<'f, S::Future, F>)
        ensures
            fut.f == &self.f,
            fut.fut.pollable(),
            forall|r: Result<S::Response, S::Error>|
                fut.fut.admits(r) ==> self.service.responds(req, r),
    {
        MapFuture { f: &self.f, fut: self.service.call(req) }
    }
}

/// The operation of one call of a [`MapResult`].
pub struct MapFuture<'f, Fut, F> {
    pub f: &'f F,
    pub fut: Fut,
}

impl<'f, Fut, F, Res, Fail> MapFuture<'f, Fut, F> where
    Fut: Operation,
    F: Fn(Fut::Output) -> Result<Res, Fail>,
 {
    /// Takes what a pull of the inner operation gave: an outcome is passed
    /// through the function, `Pending` is handed on.
    pub fn polled(&self, polled: Poll<Fut::Output>) -> (out: Poll<Result<Res, Fail>>)
        requires
            polled matches Poll::Ready(r) ==> call_requires(*self.f, (r,)),
        ensures
            match polled {
                Poll::Pending => out == Poll::<Result<Res, Fail>>::Pending,
                Poll::Ready(r) => out matches Poll::Ready(w) && call_ensures(*self.f, (r,), w),
            },
    {
        match polled {
            Poll::Ready(res) => Poll::Ready((self.f)(res)),
            Poll::Pending => Poll::Pending,
        }
    }
}

impl<'f, Fut, F, Res, Fail> Operation for MapFuture<'f, Fut, F> where
    Fut: Operation,
    F: Fn(Fut::Output) -> Result<Res, Fail>,
 {
    type Output = Result<Res, Fail>;

    open spec fn pollable(&self) -> bool {
        self.fut.pollable() && forall|r: Fut::Output|
            self.fut.admits(r) ==> call_requires(*self.f, (r,))
    }

    open spec fn admits(&self, out: Result<Res, Fail>) -> bool {
        exists|r: Fut::Output| self.fut.admits(r) && call_ensures(*self.f, (r,), out)
    }

    open spec fn stalls(&self) -> bool {
        self.fut.stalls()
    }

    open spec fn may_stall(&self) -> bool {
        self.fut.may_stall()
    }

    /// Pulls the inner operation and maps what it gave. The pull is pending
    /// whenever the inner operation stalls, and only when it may stall.
    fn poll(&mut self, cx: &mut Context<'_>) -> (out: Poll<Result<Res, Fail>>)
        ensures
            final(self).f == old(self).f,
            old(self).fut.stalls() ==> out is Pending,
            out is Pending ==> old(self).fut.may_stall() && final(self).fut.pollable(),
            out is Ready ==> !final(self).fut.pollable(),
    {
        let polled = self.fut.poll(cx);
        self.polled(polled)
    }
}

} // verus!
