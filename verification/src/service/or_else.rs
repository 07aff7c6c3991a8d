//! Recovery: a follow-up that runs only on a failure.

use crate::service::state::{follows, State};
use crate::service::Service;
use crate::task::{Operation, Poll};
use core::task::Context;
use vstd::prelude::*;

verus! {

/// A service followed by a function that turns its failure into a second
/// operation. A response of the service is handed on as it is.
#[derive(Clone, Copy)]
pub struct OrElse<S, F> {
    pub service: S,
    pub f: F,
}

impl<S, F> OrElse<S, F> {
    pub fn new(service: S, f: F) -> (or_else: Self)
        ensures
            or_else.service == service,
            or_else.f == f,
    {
        Self { service, f }
    }
}

impl<'f, S, F, Fut, Req, Fail> Service<'f, Req> for OrElse<S, F> where
    S: Service<'f, Req>,
    F: Fn(S::Error) -> Fut + 'f,
    Fut: Operation<Output = Result<S::Response, Fail>>,
 {
    type Response = S::Response;

    type Error = Fail;

    type Future = OrElseFuture<'f, S::Future, F, Fut>;

    open spec fn accepts(&self, req: Req) -> bool {
        self.service.accepts(req) && forall|e: S::Error|
            self.service.responds(req, Err(e)) ==> follows(&self.f, e)
    }

    open spec fn responds(&self, req: Req, out: Result<S::Response, Fail>) -> bool {
        ||| exists|e: S::Error, next: Fut|
            self.service.responds(req, Err(e)) && call_ensures(self.f, (e,), next) && next.admits(
                out,
            )
        ||| exists|v: S::Response|
            self.service.responds(req, Ok(v)) && out == Ok::<S::Response, Fail>(v)
    }

    open spec fn starts(&self, req: Req, fut: OrElseFuture<'f, S::Future, F, Fut>) -> bool {
        &&& fut.f == &self.f
        &&& fut.state is A
        &&& self.service.starts(req, fut.state->A_fut)
    }

    /// Starts the inner service on `req`; the follow-up has not run yet.
    fn call(&'f self, req: Req) -> (fut: OrElseFuture<'f, S::Future, F, Fut>)
        ensures
            fut.f == &self.f,
            fut.state is A,
            (fut.state->A_fut).pollable(),
            forall|r: Result<S::Response, S::Error>|
                (fut.state->A_fut).admits(r) ==> self.service.responds(req, r),
    {
        OrElseFuture { f: &self.f, state: State::A { fut: self.service.call(req) } }
    }
}

/// The operation of one call of an [`OrElse`].
pub struct OrElseFuture<'f, Fut1, F, Fut2> {
    pub f: &'f F,
    pub state: State<Fut1, Fut2>,
}

impl<'f, Fut1, F, Fut2, T, E, Fail> OrElseFuture<'f, Fut1, F, Fut2> where
    Fut1: Operation<Output = Result<T, E>>,
    F: Fn(E) -> Fut2,
    Fut2: Operation<Output = Result<T, Fail>>,
 {
    /// Takes what a pull of the first operation gave. `Pending` and a
    /// response are handed on, and the follow-up is not run: the operation
    /// stays in its first phase. On a failure the follow-up is run on it
    /// and the operation moves to its second phase; `None` tells the caller
    /// to go on with that phase.
    pub fn first_polled(&mut self, polled: Poll<Result<T, E>>) -> (out: Option<
        Poll<Result<T, Fail>>,
    >)
        requires
            old(self).state is A,
            polled matches Poll::Ready(Err(e)) ==> follows(old(self).f, e),
        ensures
            final(self).f == old(self).f,
            match polled {
                Poll::Pending => out == Some(Poll::<Result<T, Fail>>::Pending) && final(self).state
                    == old(self).state,
                Poll::Ready(Ok(v)) => out == Some(Poll::Ready(Ok::<T, Fail>(v)))
                    && final(self).state == old(self).state,
                Poll::Ready(Err(e)) => out is None && final(self).state is B && call_ensures(
                    *old(self).f,
                    (e,),
                    final(self).state->B_fut,
                ),
            },
    {
        match polled {
            Poll::Pending => Some(Poll::Pending),
            Poll::Ready(Ok(v)) => Some(Poll::Ready(Ok(v))),
            Poll::Ready(Err(e)) => {
                self.state = State::B { fut: (self.f)(e) };
                None
            },
        }
    }

    /// Takes what a pull of the second operation gave and hands it on
    /// unchanged. A value exhausts the operation.
    pub fn second_polled(&mut self, polled: Poll<Result<T, Fail>>) -> (out: Poll<Result<T, Fail>>)
        requires
            old(self).state is B,
        ensures
            out == polled,
            final(self).f == old(self).f,
            final(self).state == (if polled is Ready {
                State::Empty
            } else {
                old(self).state
            }),
    {
        if polled.is_ready() {
            self.state = State::Empty;
        }
        polled
    }
}

impl<'f, Fut1, F, Fut2, T, E, Fail> Operation for OrElseFuture<'f, Fut1, F, Fut2> where
    Fut1: Operation<Output = Result<T, E>>,
    F: Fn(E) -> Fut2,
    Fut2: Operation<Output = Result<T, Fail>>,
 {
    type Output = Result<T, Fail>;

    open spec fn pollable(&self) -> bool {
        match self.state {
            State::A { fut } => fut.pollable() && forall|e: E|
                fut.admits(Err(e)) ==> follows(self.f, e),
            State::B { fut } => fut.pollable(),
            State::Empty => false,
        }
    }

    open spec fn admits(&self, out: Result<T, Fail>) -> bool {
        match self.state {
            State::A { fut } => {
                ||| exists|e: E, next: Fut2|
                    fut.admits(Err(e)) && call_ensures(*self.f, (e,), next) && next.admits(out)
                ||| exists|v: T| fut.admits(Ok(v)) && out == Ok::<T, Fail>(v)
            },
            State::B { fut } => fut.admits(out),
            State::Empty => false,
        }
    }

    open spec fn stalls(&self) -> bool {
        match self.state {
            State::A { fut } => fut.stalls(),
            State::B { fut } => fut.stalls(),
            State::Empty => false,
        }
    }

    open spec fn may_stall(&self) -> bool {
        match self.state {
            State::A { fut } => fut.may_stall() || exists|e: E, next: Fut2|
                fut.admits(Err(e)) && call_ensures(*self.f, (e,), next) && next.may_stall(),
            State::B { fut } => fut.may_stall(),
            State::Empty => false,
        }
    }

    /// Pulls the first operation until it resolves. A response is handed out
    /// as it is and the follow-up is never run; on a failure the follow-up
    /// is run and the second operation is pulled.
    /// While the first operation stalls, the pull is pending and nothing
    /// else happens. In the pull that runs the follow-up, the operation it
    /// started decides: the pull is pending when that operation stalls, and
    /// hands out what that operation resolves to.
    fn poll(&mut self, cx: &mut Context<'_>) -> (out: Poll<Result<T, Fail>>)
        ensures
            final(self).f == old(self).f,
            old(self).state.followed_up() ==> final(self).state.followed_up(),
            !old(self).state.followed_up() && final(self).state.followed_up() ==> exists|e: E|
                (old(self).state->A_fut).admits(Err(e)),
            out is Ready && final(self).state.followed_up() ==> final(self).state is Empty,
            old(self).state matches State::A { fut } && fut.stalls() ==> final(self).state is A,
            old(self).state matches State::A { fut } && !fut.may_stall() ==> final(self).state.followed_up() || out matches Poll::Ready(Ok(_)),
            old(self).state is A && final(self).state.followed_up() ==> exists|
                e: E,
                next: Fut2,
            |
                {
                    &&& (old(self).state->A_fut).admits(Err(e))
                    &&& call_ensures(*old(self).f, (e,), next)
                    &&& next.stalls() ==> out is Pending
                    &&& out is Pending ==> next.may_stall()
                    &&& forall|w: Result<T, Fail>| out == Poll::Ready(w) ==> next.admits(w)
                },
    {
        let first = match &mut self.state {
            State::A { fut } => Some(fut.poll(cx)),
            _ => None,
        };
        if let Some(polled) = first {
            if let Some(out) = self.first_polled(polled) {
                return out;
            }
            proof {
                let e = polled->Ready_0->Err_0;
                assert((old(self).state->A_fut).admits(Err(e)));
                assert(follows(self.f, e));
            }
        }
        let ghost started = self.state;
        let ghost outcome = first;
        let second = match &mut self.state {
            State::B { fut } => fut.poll(cx),
            _ => Poll::Pending,
        };
        proof {
            if old(self).state is A {
                let e = outcome->Some_0->Ready_0->Err_0;
                let next = started->B_fut;
                assert((old(self).state->A_fut).admits(Err(e)) && call_ensures(
                    *old(self).f,
                    (e,),
                    next,
                ));
            }
        }
        self.second_polled(second)
    }
}

/// The follow-up has no say where the inner service responds. A request
/// on which the inner service can only respond is accepted whatever the
/// follow-up demands of its argument, and every response of the inner
/// service is an outcome of the whole, unchanged.
pub proof fn lemma_or_else_response<'f, S, F, Fut, Req, Fail>(service: OrElse<S, F>, req: Req) where
    S: Service<'f, Req>,
    F: Fn(S::Error) -> Fut + 'f,
    Fut: Operation<Output = Result<S::Response, Fail>>,

    ensures
        service.service.accepts(req) && (forall|e: S::Error|
            !service.service.responds(req, Err(e))) ==> service.accepts(req),
        forall|v: S::Response|
            service.service.responds(req, Ok(v)) ==> #[trigger] service.responds(req, Ok(v)),
        (forall|e: S::Error| !service.service.responds(req, Err(e))) ==> forall|
            out: Result<S::Response, Fail>,
        | #[trigger]
            service.responds(req, out) ==> out is Ok && service.service.responds(
                req,
                Ok(out->Ok_0),
            ),
{
    assert forall|v: S::Response| service.service.responds(req, Ok(v)) implies #[trigger] service.responds(
        req,
        Ok(v),
    ) by {
        assert(Ok::<S::Response, Fail>(v) == Ok::<S::Response, Fail>(v));
    }
}

} // verus!
