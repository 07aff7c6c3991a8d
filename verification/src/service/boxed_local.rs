//! Single-threaded wrappers that hide what service they hold. They ask
//! nothing about thread safety of what they wrap, and cannot cross to another
//! thread themselves.

use crate::service::boxed::Erased;
use crate::service::Service;
use crate::task::{Operation, Poll};
use core::task::Context;
use std::rc::Rc;
use vstd::prelude::*;

verus! {

/// What an erased operation can do; the one interface behind a
/// [`LocalLocalBoxFuture`].
pub trait LocalAnyOperation<T> {
    spec fn any_pollable(&self) -> bool;

    spec fn any_admits(&self, v: T) -> bool;

    spec fn any_stalls(&self) -> bool;

    spec fn any_may_stall(&self) -> bool;

    fn poll_any(&mut self, cx: &mut Context<'_>) -> (out: Poll<T>)
        requires
            old(self).any_pollable(),
        ensures
            match out {
                Poll::Ready(v) => old(self).any_admits(v) && !final(self).any_pollable(),
                Poll::Pending => final(self).any_pollable() && forall|v: T|
                    final(self).any_admits(v) ==> old(self).any_admits(v),
            },
            old(self).any_stalls() ==> out is Pending,
            out is Pending ==> old(self).any_may_stall(),
    ;
}

impl<O: Operation> LocalAnyOperation<O::Output> for Erased<O> {
    open spec fn any_pollable(&self) -> bool {
        self.0.pollable()
    }

    open spec fn any_admits(&self, v: O::Output) -> bool {
        self.0.admits(v)
    }

    open spec fn any_stalls(&self) -> bool {
        self.0.stalls()
    }

    open spec fn any_may_stall(&self) -> bool {
        self.0.may_stall()
    }

    fn poll_any(&mut self, cx: &mut Context<'_>) -> (out: Poll<O::Output>) {
        self.0.poll(cx)
    }
}

/// An operation on the heap whose concrete type is hidden. It stays on the
/// thread that made it.
#[verifier::reject_recursive_types(T)]
pub struct LocalBoxFuture<'a, T> {
    pub inner: Box<dyn LocalAnyOperation<T> + 'a>,
}

impl<'a, T> LocalBoxFuture<'a, T> {
    /// Moves `op` to the heap and hides its type. The boxed operation can be
    /// pulled when `op` could, and admits what `op` admitted.
    pub fn new<O>(op: O) -> (boxed: Self) where O: Operation<Output = T> + 'a
        ensures
            boxed.pollable() == op.pollable(),
            forall|v: T| boxed.admits(v) == op.admits(v),
            boxed.stalls() == op.stalls(),
            boxed.may_stall() == op.may_stall(),
            mirrors(boxed, op),
    {
        LocalBoxFuture { inner: Box::new(Erased(op)) }
    }
}

impl<'a, T> Operation for LocalBoxFuture<'a, T> {
    type Output = T;

    open spec fn pollable(&self) -> bool {
        self.inner.any_pollable()
    }

    open spec fn admits(&self, v: T) -> bool {
        self.inner.any_admits(v)
    }

    open spec fn stalls(&self) -> bool {
        self.inner.any_stalls()
    }

    open spec fn may_stall(&self) -> bool {
        self.inner.any_may_stall()
    }

    /// Pulls the operation it holds.
    fn poll(&mut self, cx: &mut Context<'_>) -> (out: Poll<T>) {
        self.inner.poll_any(cx)
    }
}

/// Whether the boxed operation `boxed` stands for `op`: it can be pulled
/// when `op` can, admits what `op` admits, and stalls when `op` does.
pub open spec fn mirrors<'a, T, O: Operation<Output = T>>(boxed: LocalBoxFuture<'a, T>, op: O) -> bool {
    &&& boxed.pollable() == op.pollable()
    &&& forall|v: T| boxed.admits(v) == op.admits(v)
    &&& boxed.stalls() == op.stalls()
    &&& boxed.may_stall() == op.may_stall()
}

/// Whether `fut` is the boxed form of an operation that `service` starts
/// for `req`: there is such an operation, it can be pulled and resolves
/// only to outcomes of `service` for `req`, and `fut` stands for it.
pub open spec fn starts_boxed<'a, S, Req, Res, Fail>(
    service: S,
    req: Req,
    fut: LocalBoxFuture<'a, Result<Res, Fail>>,
) -> bool where S: Service<'a, Req, Response = Res, Error = Fail> {
    exists|op: S::Future|
        {
            &&& service.starts(req, op)
            &&& op.pollable()
            &&& forall|out: Result<Res, Fail>| op.admits(out) ==> service.responds(req, out)
            &&& mirrors(fut, op)
        }
}

/// What an erased service can do; the one interface behind the boxed
/// services.
pub trait LocalAnyService<Req, Res, Fail> {
    spec fn any_accepts(&self, req: Req) -> bool;

    spec fn any_responds(&self, req: Req, out: Result<Res, Fail>) -> bool;

    /// Whether `fut` is the boxed form of an operation that a call of the
    /// wrapped service with `req` may start.
    spec fn any_starts<'a>(&self, req: Req, fut: LocalBoxFuture<'a, Result<Res, Fail>>) -> bool;

    fn call_any<'a>(&'a self, req: Req) -> (fut: LocalBoxFuture<'a, Result<Res, Fail>>) where Req: 'a
        requires
            self.any_accepts(req),
        ensures
            self.any_starts(req, fut),
            fut.pollable(),
            forall|out: Result<Res, Fail>| fut.admits(out) ==> self.any_responds(req, out),
    ;
}

impl<S, Req, Res, Fail> LocalAnyService<Req, Res, Fail> for Erased<S> where
    S: for <'f>Service<'f, Req, Response = Res, Error = Fail>,
 {
    open spec fn any_accepts(&self, req: Req) -> bool {
        self.0.accepts(req)
    }

    open spec fn any_responds(&self, req: Req, out: Result<Res, Fail>) -> bool {
        self.0.responds(req, out)
    }

    open spec fn any_starts<'a>(&self, req: Req, fut: LocalBoxFuture<'a, Result<Res, Fail>>) -> bool {
        starts_boxed(self.0, req, fut)
    }

    fn call_any<'a>(&'a self, req: Req) -> (fut: LocalBoxFuture<'a, Result<Res, Fail>>) where Req: 'a {
        LocalBoxFuture::new(self.0.call(req))
    }
}

/// A service on the heap whose concrete type is hidden. It has one owner
/// and cannot be duplicated.
#[verifier::reject_recursive_types(Req)]
#[verifier::reject_recursive_types(Res)]
#[verifier::reject_recursive_types(Fail)]
pub struct LocalBoxService<Req, Res, Fail> {
    pub service: Box<dyn LocalAnyService<Req, Res, Fail>>,
}

impl<Req, Res, Fail> LocalBoxService<Req, Res, Fail> {
    /// Moves `service` to the heap and hides its type. The wrapper accepts
    /// the requests that `service` accepts and responds as it does.
    pub fn new<S>(service: S) -> (boxed: Self) where
        S: for <'f>Service<'f, Req, Response = Res, Error = Fail> + 'static,

        ensures
            forall|req: Req| boxed.service.any_accepts(req) == service.accepts(req),
            forall|req: Req, out: Result<Res, Fail>|
                boxed.service.any_responds(req, out) == service.responds(req, out),
            forall|req: Req, fut: LocalBoxFuture<'_, Result<Res, Fail>>|
                #[trigger] boxed.service.any_starts(req, fut) == starts_boxed(service, req, fut),
    {
        Self { service: Box::new(Erased(service)) }
    }
}

impl<'f, Req, Res, Fail> Service<'f, Req> for LocalBoxService<Req, Res, Fail> where Req: 'static {
    type Response = Res;

    type Error = Fail;

    type Future = LocalBoxFuture<'f, Result<Res, Fail>>;

    open spec fn accepts(&self, req: Req) -> bool {
        self.service.any_accepts(req)
    }

    open spec fn responds(&self, req: Req, out: Result<Res, Fail>) -> bool {
        self.service.any_responds(req, out)
    }

    open spec fn starts(&self, req: Req, fut: LocalBoxFuture<'f, Result<Res, Fail>>) -> bool {
        self.service.any_starts(req, fut)
    }

    /// Hands `req` to the service it holds: the operation is the boxed form
    /// of the one that the service starts.
    fn call(&'f self, req: Req) -> (fut: LocalBoxFuture<'f, Result<Res, Fail>>)
        ensures
            self.service.any_starts(req, fut),
    {
        self.service.call_any(req)
    }
}

/// A service whose concrete type is hidden and which is shared by
/// reference count on one thread: every duplicate is a handle to the one instance, and
/// the wrapped service need not support duplication itself.
#[verifier::reject_recursive_types(Req)]
#[verifier::reject_recursive_types(Res)]
#[verifier::reject_recursive_types(Fail)]
pub struct RcService<Req, Res, Fail> {
    pub service: Rc<Box<dyn LocalAnyService<Req, Res, Fail>>>,
}

impl<Req, Res, Fail> RcService<Req, Res, Fail> {
    /// Moves `service` behind a reference count and hides its type. The
    /// wrapper accepts the requests that `service` accepts and responds as
    /// it does.
    pub fn new<S>(service: S) -> (shared: Self) where
        S: for <'f>Service<'f, Req, Response = Res, Error = Fail> + 'static,

        ensures
            forall|req: Req| shared.service.any_accepts(req) == service.accepts(req),
            forall|req: Req, out: Result<Res, Fail>|
                shared.service.any_responds(req, out) == service.responds(req, out),
            forall|req: Req, fut: LocalBoxFuture<'_, Result<Res, Fail>>|
                #[trigger] shared.service.any_starts(req, fut) == starts_boxed(service, req, fut),
    {
        Self { service: Rc::new(Box::new(Erased(service))) }
    }
}

impl<Req, Res, Fail> Clone for RcService<Req, Res, Fail> {
    /// Gives another handle to the same service.
    fn clone(&self) -> (copy: Self)
        ensures
            copy.service == self.service,
    {
        Self { service: Rc::clone(&self.service) }
    }
}

impl<'f, Req, Res, Fail> Service<'f, Req> for RcService<Req, Res, Fail> where Req: 'static {
    type Response = Res;

    type Error = Fail;

    type Future = LocalBoxFuture<'f, Result<Res, Fail>>;

    open spec fn accepts(&self, req: Req) -> bool {
        self.service.any_accepts(req)
    }

    open spec fn responds(&self, req: Req, out: Result<Res, Fail>) -> bool {
        self.service.any_responds(req, out)
    }

    open spec fn starts(&self, req: Req, fut: LocalBoxFuture<'f, Result<Res, Fail>>) -> bool {
        self.service.any_starts(req, fut)
    }

    /// Hands `req` to the service it shares: the operation is the boxed
    /// form of the one that the service starts.
    fn call(&'f self, req: Req) -> (fut: LocalBoxFuture<'f, Result<Res, Fail>>)
        ensures
            self.service.any_starts(req, fut),
    {
        self.service.call_any(req)
    }
}

} // verus!
