//! Sequencing on success: a follow-up that runs only on a response.

use crate::service::state::{follows, State};
use crate::service::Service;
use crate::task::{Operation, Poll};
use core::task::Context;
use vstd::prelude::*;

verus! {

/// A service followed by a function that turns its response into a second
/// operation. A failure of the service is handed on as it is.
#[derive(Clone, Copy)]
pub struct AndThen<S, F> {
    pub service: S,
    pub f: F,
}

impl<S, F> AndThen<S, F> {
    pub fn new(service: S, f: F) -> (and_then: Self)
        ensures
            and_then.service == service,
            and_then.f == f,
    {
        Self { service, f }
    }
}

impl<'f, S, F, Fut, Req, Res> Service<'f, Req> for AndThen<S, F> where
    S: Service<'f, Req>,
    F: Fn(S::Response) -> Fut + 'f,
    Fut: Operation<Output = Result<Res, S::Error>>,
 {
    type Response = Res;

    type Error = S::Error;

    type Future = AndThenFuture<'f, S::Future, F, Fut>;

    open spec fn accepts(&self, req: Req) -> bool {
        self.service.accepts(req) && forall|v: S::Response|
            self.service.responds(req, Ok(v)) ==> follows(&self.f, v)
    }

    open spec fn responds(&self, req: Req, out: Result<Res, S::Error>) -> bool {
        ||| exists|v: S::Response, next: Fut|
            self.service.responds(req, Ok(v)) && call_ensures(self.f, (v,), next) && next.admits(
                out,
            )
        ||| exists|e: S::Error| self.service.responds(req, Err(e)) && out == Err::<Res, S::Error>(e)
    }

    open spec fn starts(&self, req: Req, fut: AndThenFuture<'f, S::Future, F, Fut>) -> bool {
        &&& fut.f == &self.f
        &&& fut.state is A
        &&& self.service.starts(req, fut.state->A_fut)
    }

    /// Starts the inner service on `req`; the follow-up has not run yet.
    fn call(&'f self, req: Req) -> (fut: AndThenFuture<'f, S::Future, F, Fut>)
        ensures
            fut.f == &self.f,
            fut.state is A,
            (fut.state->A_fut).pollable(),
            forall|r: Result<S::Response, S::Error>|
                (fut.state->A_fut).admits(r) ==> self.service.responds(req, r),
    {
        AndThenFuture { f: &self.f, state: State::A { fut: self.service.call(req) } }
    }
}

/// The operation of one call of an [`AndThen`].
pub struct AndThenFuture<'f, Fut1, F, Fut2> {
    pub f: &'f F,
    pub state: State<Fut1, Fut2>,
}

impl<'f, Fut1, F, Fut2, T, E, Res> AndThenFuture<'f, Fut1, F, Fut2> where
    Fut1: Operation<Output = Result<T, E>>,
    F: Fn(T) -> Fut2,
    Fut2: Operation<Output = Result<Res, E>>,
 {
    /// Takes what a pull of the first operation gave. `Pending` and a
    /// failure are handed on, and the follow-up is not run: the operation
    /// stays in its first phase. On a response the follow-up is run on it
    /// and the operation moves to its second phase; `None` tells the caller
    /// to go on with that phase.
    pub fn first_polled(&mut self, polled: Poll<Result<T, E>>) -> (out: Option<
        Poll<Result<Res, E>>,
    >)
        requires
            old(self).state is A,
            polled matches Poll::Ready(Ok(v)) ==> follows(old(self).f, v),
        ensures
            final(self).f == old(self).f,
            match polled {
                Poll::Pending => out == Some(Poll::<Result<Res, E>>::Pending) && final(self).state
                    == old(self).state,
                Poll::Ready(Err(e)) => out == Some(Poll::Ready(Err::<Res, E>(e)))
                    && final(self).state == old(self).state,
                Poll::Ready(Ok(v)) => out is None && final(self).state is B && call_ensures(
                    *old(self).f,
                    (v,),
                    final(self).state->B_fut,
                ),
            },
    {
        match polled {
            Poll::Pending => Some(Poll::Pending),
            Poll::Ready(Err(e)) => Some(Poll::Ready(Err(e))),
            Poll::Ready(Ok(v)) => {
                self.state = State::B { fut: (self.f)(v) };
                None
            },
        }
    }

    /// Takes what a pull of the second operation gave and hands it on
    /// unchanged. A value exhausts the operation.
    pub fn second_polled(&mut self, polled: Poll<Result<Res, E>>) -> (out: Poll<Result<Res, E>>)
        requires
            old(self).state is B,
        ensures
            out == polled,
            final(self).f == old(self).f,
            final(self).state == (if polled is Ready {
                State::Empty
            } else {
                old(self).state
            }),
    {
        if polled.is_ready() {
            self.state = State::Empty;
        }
        polled
    }
}

impl<'f, Fut1, F, Fut2, T, E, Res> Operation for AndThenFuture<'f, Fut1, F, Fut2> where
    Fut1: Operation<Output = Result<T, E>>,
    F: Fn(T) -> Fut2,
    Fut2: Operation<Output = Result<Res, E>>,
 {
    type Output = Result<Res, E>;

    open spec fn pollable(&self) -> bool {
        match self.state {
            State::A { fut } => fut.pollable() && forall|v: T|
                fut.admits(Ok(v)) ==> follows(self.f, v),
            State::B { fut } => fut.pollable(),
            State::Empty => false,
        }
    }

    open spec fn admits(&self, out: Result<Res, E>) -> bool {
        match self.state {
            State::A { fut } => {
                ||| exists|v: T, next: Fut2|
                    fut.admits(Ok(v)) && call_ensures(*self.f, (v,), next) && next.admits(out)
                ||| exists|e: E| fut.admits(Err(e)) && out == Err::<Res, E>(e)
            },
            State::B { fut } => fut.admits(out),
            State::Empty => false,
        }
    }

    open spec fn stalls(&self) -> bool {
        match self.state {
            State::A { fut } => fut.stalls(),
            State::B { fut } => fut.stalls(),
            State::Empty => false,
        }
    }

    open spec fn may_stall(&self) -> bool {
        match self.state {
            State::A { fut } => fut.may_stall() || exists|v: T, next: Fut2|
                fut.admits(Ok(v)) && call_ensures(*self.f, (v,), next) && next.may_stall(),
            State::B { fut } => fut.may_stall(),
            State::Empty => false,
        }
    }

    /// Pulls the first operation until it resolves. A failure is handed out
    /// as it is and the follow-up is never run; on a response the follow-up
    /// is run and the second operation is pulled.
    /// While the first operation stalls, the pull is pending and nothing
    /// else happens. In the pull that runs the follow-up, the operation it
    /// started decides: the pull is pending when that operation stalls, and
    /// hands out what that operation resolves to.
    fn poll(&mut self, cx: &mut Context<'_>) -> (out: Poll<Result<Res, E>>)
        ensures
            final(self).f == old(self).f,
            old(self).state.followed_up() ==> final(self).state.followed_up(),
            !old(self).state.followed_up() && final(self).state.followed_up() ==> exists|v: T|
                (old(self).state->A_fut).admits(Ok(v)),
            out is Ready && final(self).state.followed_up() ==> final(self).state is Empty,
            old(self).state matches State::A { fut } && fut.stalls() ==> final(self).state is A,
            old(self).state matches State::A { fut } && !fut.may_stall() ==> final(self).state.followed_up() || out matches Poll::Ready(Err(_)),
            old(self).state is A && final(self).state.followed_up() ==> exists|
                v: T,
                next: Fut2,
            |
                {
                    &&& (old(self).state->A_fut).admits(Ok(v))
                    &&& call_ensures(*old(self).f, (v,), next)
                    &&& next.stalls() ==> out is Pending
                    &&& out is Pending ==> next.may_stall()
                    &&& forall|w: Result<Res, E>| out == Poll::Ready(w) ==> next.admits(w)
                },
    {
        let first = match &mut self.state {
            State::A { fut } => Some(fut.poll(cx)),
            _ => None,
        };
        if let Some(polled) = first {
            if let Some(out) = self.first_polled(polled) {
                return out;
            }
            proof {
                let v = polled->Ready_0->Ok_0;
                assert((old(self).state->A_fut).admits(Ok(v)));
                assert(follows(self.f, v));
            }
        }
        let ghost started = self.state;
        let ghost outcome = first;
        let second = match &mut self.state {
            State::B { fut } => fut.poll(cx),
            _ => Poll::Pending,
        };
        proof {
            if old(self).state is A {
                let v = outcome->Some_0->Ready_0->Ok_0;
                let next = started->B_fut;
                assert((old(self).state->A_fut).admits(Ok(v)) && call_ensures(
                    *old(self).f,
                    (v,),
                    next,
                ));
            }
        }
        self.second_polled(second)
    }
}

/// The follow-up has no say where the inner service fails. A request on
/// which the inner service can only fail is accepted whatever the
/// follow-up demands of its argument, and every failure of the inner
/// service is an outcome of the whole, unchanged.
pub proof fn lemma_and_then_failure<'f, S, F, Fut, Req, Res>(service: AndThen<S, F>, req: Req) where
    S: Service<'f, Req>,
    F: Fn(S::Response) -> Fut + 'f,
    Fut: Operation<Output = Result<Res, S::Error>>,

    ensures
        service.service.accepts(req) && (forall|v: S::Response|
            !service.service.responds(req, Ok(v))) ==> service.accepts(req),
        forall|e: S::Error|
            service.service.responds(req, Err(e)) ==> #[trigger] service.responds(req, Err(e)),
        (forall|v: S::Response| !service.service.responds(req, Ok(v))) ==> forall|
            out: Result<Res, S::Error>,
        | #[trigger]
            service.responds(req, out) ==> out is Err && service.service.responds(
                req,
                Err(out->Err_0),
            ),
{
    assert forall|e: S::Error| service.service.responds(req, Err(e)) implies #[trigger] service.responds(
        req,
        Err(e),
    ) by {
        assert(Err::<Res, S::Error>(e) == Err::<Res, S::Error>(e));
    }
}

} // verus!
