//! Mapping the failure of a service.

use crate::service::Service;
use crate::task::{Operation, Poll};
use core::task::Context;
use vstd::prelude::*;

verus! {

/// A service whose failure is passed through a function. A response is
/// handed on as it is.
#[derive(Clone, Copy)]
pub struct MapErr<S, F> {
    pub service: S,
    pub f: F,
}

impl<S, F> MapErr<S, F> {
    pub fn new(service: S, f: F) -> (map_err: Self)
        ensures
            map_err.service == service,
            map_err.f == f,
    {
        Self { service, f }
    }
}

impl<'f, S, F, Req, Fail> Service<'f, Req> for MapErr<S, F> where
    S: Service<'f, Req>,
    F: Fn(S::Error) -> Fail + 'f,
 {
    type Response = S::Response;

    type Error = Fail;

    type Future = MapErrFuture<'f, S::Future, F>;

    open spec fn accepts(&self, req: Req) -> bool {
        self.service.accepts(req) && forall|e: S::Error|
            self.service.responds(req, Err(e)) ==> call_requires(self.f, (e,))
    }

    open spec fn responds(&self, req: Req, out: Result<S::Response, Fail>) -> bool {
        match out {
            Ok(v) => self.service.responds(req, Ok(v)),
            Err(w) => exists|e: S::Error|
                self.service.responds(req, Err(e)) && call_ensures(self.f, (e,), w),
        }
    }

    open spec fn starts(&self, req: Req, fut: MapErrFuture<'f, S::Future, F>) -> bool {
        fut.f == &self.f && self.service.starts(req, fut.fut)
    }

    /// Starts the inner service on `req`.
    fn call(&'f self, req: Req) -> (fut: MapErrFuture<'f, S::Future, F>)
        ensures
            fut.f == &self.f,
            fut.fut.pollable(),
            forall|r: Result<S::Response, S::Error>|
                fut.fut.admits(r) ==> self.service.responds(req, r),
    {
        MapErrFuture { f: &self.f, fut: self.service.call(req) }
    }
}

/// The operation of one call of a [`MapErr`].
pub struct MapErrFuture<'f, Fut, F> {
    pub f: &'f F,
    pub fut: Fut,
}

impl<'f, Fut, F, T, E, Fail> MapErrFuture<'f, Fut, F> where
    Fut: Operation<Output = Result<T, E>>,
    F: Fn(E) -> Fail,
 {
    /// Takes what a pull of the inner operation gave: a failure is passed
    /// through the function, a response and `Pending` are handed on as they
    /// are.
    pub fn polled(&self, polled: Poll<Result<T, E>>) -> (out: Poll<Result<T, Fail>>)
        requires
            polled matches Poll::Ready(Err(e)) ==> call_requires(*self.f, (e,)),
        ensures
            match polled {
                Poll::Pending => out == Poll::<Result<T, Fail>>::Pending,
                Poll::Ready(Ok(v)) => out == Poll::Ready(Ok::<T, Fail>(v)),
                Poll::Ready(Err(e)) => out matches Poll::Ready(Err(w)) && call_ensures(
                    *self.f,
                    (e,),
                    w,
                ),
            },
    {
        match polled {
            Poll::Ready(Ok(res)) => Poll::Ready(Ok(res)),
            Poll::Ready(Err(err)) => Poll::Ready(Err((self.f)(err))),
            Poll::Pending => Poll::Pending,
        }
    }
}

impl<'f, Fut, F, T, E, Fail> Operation for MapErrFuture<'f, Fut, F> where
    Fut: Operation<Output = Result<T, E>>,
    F: Fn(E) -> Fail,
 {
    type Output = Result<T, Fail>;

    open spec fn pollable(&self) -> bool {
        self.fut.pollable() && forall|e: E|
            self.fut.admits(Err(e)) ==> call_requires(*self.f, (e,))
    }

    open spec fn admits(&self, out: Result<T, Fail>) -> bool {
        match out {
            Ok(v) => self.fut.admits(Ok(v)),
            Err(w) => exists|e: E| self.fut.admits(Err(e)) && call_ensures(*self.f, (e,), w),
        }
    }

    open spec fn stalls(&self) -> bool {
        self.fut.stalls()
    }

    open spec fn may_stall(&self) -> bool {
        self.fut.may_stall()
    }

    /// Pulls the inner operation and maps what it gave. The pull is pending
    /// whenever the inner operation stalls, and only when it may stall.
    fn poll(&mut self, cx: &mut Context<'_>) -> (out: Poll<Result<T, Fail>>)
        ensures
            final(self).f == old(self).f,
            old(self).fut.stalls() ==> out is Pending,
            out is Pending ==> old(self).fut.may_stall() && final(self).fut.pollable(),
            out is Ready ==> !final(self).fut.pollable(),
    {
        let polled = self.fut.poll(cx);
        self.polled(polled)
    }
}

} // verus!
