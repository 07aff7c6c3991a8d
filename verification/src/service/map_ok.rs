//! Mapping the response of a service.

use crate::service::Service;
use crate::task::{Operation, Poll};
use core::task::Context;
use vstd::prelude::*;

verus! {

/// A service whose response is passed through a function. A failure is
/// handed on as it is.
#[derive(Clone, Copy)]
pub struct MapOk<S, F> {
    pub service: S,
    pub f: F,
}

impl<S, F> MapOk<S, F> {
    pub fn new(service: S, f: F) -> (map_ok: Self)
        ensures
            map_ok.service == service,
            map_ok.f == f,
    {
        Self { service, f }
    }
}

impl<'f, S, F, Req, Res> Service<'f, Req> for MapOk<S, F> where
    S: Service<'f, Req>,
    F: Fn(S::Response) -> Res + 'f,
 {
    type Response = Res;

    type Error = S::Error;

    type Future = MapOkFuture<'f, S::Future, F>;

    open spec fn accepts(&self, req: Req) -> bool {
        self.service.accepts(req) && forall|v: S::Response|
            self.service.responds(req, Ok(v)) ==> call_requires(self.f, (v,))
    }

    open spec fn responds(&self, req: Req, out: Result<Res, S::Error>) -> bool {
        match out {
            Ok(w) => exists|v: S::Response|
                self.service.responds(req, Ok(v)) && call_ensures(self.f, (v,), w),
            Err(e) => self.service.responds(req, Err(e)),
        }
    }

    open spec fn starts(&self, req: Req, fut: MapOkFuture<'f, S::Future, F>) -> bool {
        fut.f == &self.f && self.service.starts(req, fut.fut)
    }

    /// Starts the inner service on `req`.
    fn call(&'f self, req: Req) -> (fut: MapOkFuture<'f, S::Future, F>)
        ensures
            fut.f == &self.f,
            fut.fut.pollable(),
            forall|r: Result<S::Response, S::Error>|
                fut.fut.admits(r) ==> self.service.responds(req, r),
    {
        MapOkFuture { f: &self.f, fut: self.service.call(req) }
    }
}

/// The operation of one call of a [`MapOk`].
pub struct MapOkFuture<'f, Fut, F> {
    pub f: &'f F,
    pub fut: Fut,
}

impl<'f, Fut, F, T, E, Res> MapOkFuture<'f, Fut, F> where
    Fut: Operation<Output = Result<T, E>>,
    F: Fn(T) -> Res,
 {
    /// Takes what a pull of the inner operation gave: a response is passed
    /// through the function, a failure and `Pending` are handed on as they
    /// are.
    pub fn polled(&self, polled: Poll<Result<T, E>>) -> (out: Poll<Result<Res, E>>)
        requires
            polled matches Poll::Ready(Ok(v)) ==> call_requires(*self.f, (v,)),
        ensures
            match polled {
                Poll::Pending => out == Poll::<Result<Res, E>>::Pending,
                Poll::Ready(Err(e)) => out == Poll::Ready(Err::<Res, E>(e)),
                Poll::Ready(Ok(v)) => out matches Poll::Ready(Ok(w)) && call_ensures(
                    *self.f,
                    (v,),
                    w,
                ),
            },
    {
        match polled {
            Poll::Ready(Ok(res)) => Poll::Ready(Ok((self.f)(res))),
            Poll::Ready(Err(err)) => Poll::Ready(Err(err)),
            Poll::Pending => Poll::Pending,
        }
    }
}

impl<'f, Fut, F, T, E, Res> Operation for MapOkFuture<'f, Fut, F> where
    Fut: Operation<Output = Result<T, E>>,
    F: Fn(T) -> Res,
 {
    type Output = Result<Res, E>;

    open spec fn pollable(&self) -> bool {
        self.fut.pollable() && forall|v: T|
            self.fut.admits(Ok(v)) ==> call_requires(*self.f, (v,))
    }

    open spec fn admits(&self, out: Result<Res, E>) -> bool {
        match out {
            Ok(w) => exists|v: T| self.fut.admits(Ok(v)) && call_ensures(*self.f, (v,), w),
            Err(e) => self.fut.admits(Err(e)),
        }
    }

    open spec fn stalls(&self) -> bool {
        self.fut.stalls()
    }

    open spec fn may_stall(&self) -> bool {
        self.fut.may_stall()
    }

    /// Pulls the inner operation and maps what it gave. The pull is pending
    /// whenever the inner operation stalls, and only when it may stall.
    fn poll(&mut self, cx: &mut Context<'_>) -> (out: Poll<Result<Res, E>>)
        ensures
            final(self).f == old(self).f,
            old(self).fut.stalls() ==> out is Pending,
            out is Pending ==> old(self).fut.may_stall() && final(self).fut.pollable(),
            out is Ready ==> !final(self).fut.pollable(),
    {
        let polled = self.fut.poll(cx);
        self.polled(polled)
    }
}

/// Mapping a response keeps failures as they are and maps nothing else:
/// whenever the inner service may fail with `e`, so may the mapped one,
/// with the same `e`, and the other way round; and the mapped service
/// responds with `w` exactly when the inner one may respond with some `v`
/// of which the function makes `w`.
pub proof fn lemma_map_ok_outcomes<'f, S, F, Req, Res>(service: MapOk<S, F>, req: Req) where
    S: Service<'f, Req>,
    F: Fn(S::Response) -> Res + 'f,

    ensures
        forall|e: S::Error| #[trigger]
            service.responds(req, Err(e)) <==> service.service.responds(req, Err(e)),
        forall|v: S::Response, w: Res|
            service.service.responds(req, Ok(v)) && #[trigger] call_ensures(service.f, (v,), w)
                ==> service.responds(req, Ok(w)),
        forall|w: Res| #[trigger]
            service.responds(req, Ok(w)) ==> exists|v: S::Response|
                service.service.responds(req, Ok(v)) && call_ensures(service.f, (v,), w),
{
}

} // verus!
