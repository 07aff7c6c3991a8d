//! Sequencing: a follow-up that runs whatever the first outcome was.

use crate::service::state::{follows, State};
use crate::service::Service;
use crate::task::{Operation, Poll};
use core::task::Context;
use vstd::prelude::*;

verus! {

/// A service followed by a function that turns its outcome, success or
/// failure, into a second operation.
#[derive(Clone, Copy)]
pub struct Then<S, F> {
    pub service: S,
    pub f: F,
}

impl<S, F> Then<S, F> {
    pub fn new(service: S, f: F) -> (then: Self)
        ensures
            then.service == service,
            then.f == f,
    {
        Self { service, f }
    }
}

impl<'f, S, F, Fut, Req, Res, Fail> Service<'f, Req> for Then<S, F> where
    S: Service<'f, Req>,
    F: Fn(Result<S::Response, S::Error>) -> Fut + 'f,
    Fut: Operation<Output = Result<Res, Fail>>,
 {
    type Response = Res;

    type Error = Fail;

    type Future = ThenFuture<'f, S::Future, F, Fut>;

    open spec fn accepts(&self, req: Req) -> bool {
        self.service.accepts(req) && forall|r: Result<S::Response, S::Error>|
            self.service.responds(req, r) ==> follows(&self.f, r)
    }

    open spec fn responds(&self, req: Req, out: Result<Res, Fail>) -> bool {
        exists|r: Result<S::Response, S::Error>, next: Fut|
            self.service.responds(req, r) && call_ensures(self.f, (r,), next) && next.admits(out)
    }

    open spec fn starts(&self, req: Req, fut: ThenFuture<'f, S::Future, F, Fut>) -> bool {
        &&& fut.f == &self.f
        &&& fut.state is A
        &&& self.service.starts(req, fut.state->A_fut)
    }

    /// Starts the inner service on `req`; the follow-up has not run yet.
    fn call(&'f self, req: Req) -> (fut: ThenFuture<'f, S::Future, F, Fut>)
        ensures
            fut.f == &self.f,
            fut.state is A,
            (fut.state->A_fut).pollable(),
            forall|r: Result<S::Response, S::Error>|
                (fut.state->A_fut).admits(r) ==> self.service.responds(req, r),
    {
        ThenFuture { f: &self.f, state: State::A { fut: self.service.call(req) } }
    }
}

/// The operation of one call of a [`Then`].
pub struct ThenFuture<'f, Fut1, F, Fut2> {
    pub f: &'f F,
    pub state: State<Fut1, Fut2>,
}

impl<'f, Fut1, F, Fut2> ThenFuture<'f, Fut1, F, Fut2> where
    Fut1: Operation,
    F: Fn(Fut1::Output) -> Fut2,
    Fut2: Operation,
 {
    /// Takes what a pull of the first operation gave. `Pending` is handed
    /// on and nothing changes. On `Ready(res)` the follow-up is run on
    /// `res`, whatever `res` is, and the operation moves to its second
    /// phase; `None` tells the caller to go on with that phase.
    pub fn first_polled(&mut self, polled: Poll<Fut1::Output>) -> (out: Option<Poll<Fut2::Output>>)
        requires
            old(self).state is A,
            polled matches Poll::Ready(res) ==> follows(old(self).f, res),
        ensures
            final(self).f == old(self).f,
            match polled {
                Poll::Pending => out == Some(Poll::<Fut2::Output>::Pending) && final(self).state
                    == old(self).state,
                Poll::Ready(res) => out is None && final(self).state is B && call_ensures(
                    *old(self).f,
                    (res,),
                    final(self).state->B_fut,
                ),
            },
    {
        match polled {
            Poll::Pending => Some(Poll::Pending),
            Poll::Ready(res) => {
                self.state = State::B { fut: (self.f)(res) };
                None
            },
        }
    }

    /// Takes what a pull of the second operation gave and hands it on
    /// unchanged. A value exhausts the operation.
    pub fn second_polled(&mut self, polled: Poll<Fut2::Output>) -> (out: Poll<Fut2::Output>)
        requires
            old(self).state is B,
        ensures
            out == polled,
            final(self).f == old(self).f,
            final(self).state == (if polled is Ready {
                State::Empty
            } else {
                old(self).state
            }),
    {
        if polled.is_ready() {
            self.state = State::Empty;
        }
        polled
    }
}

impl<'f, Fut1, F, Fut2> Operation for ThenFuture<'f, Fut1, F, Fut2> where
    Fut1: Operation,
    F: Fn(Fut1::Output) -> Fut2,
    Fut2: Operation,
 {
    type Output = Fut2::Output;

    open spec fn pollable(&self) -> bool {
        match self.state {
            State::A { fut } => fut.pollable() && forall|r: Fut1::Output|
                fut.admits(r) ==> follows(self.f, r),
            State::B { fut } => fut.pollable(),
            State::Empty => false,
        }
    }

    open spec fn admits(&self, v: Fut2::Output) -> bool {
        match self.state {
            State::A { fut } => exists|r: Fut1::Output, next: Fut2|
                fut.admits(r) && call_ensures(*self.f, (r,), next) && next.admits(v),
            State::B { fut } => fut.admits(v),
            State::Empty => false,
        }
    }

    open spec fn stalls(&self) -> bool {
        match self.state {
            State::A { fut } => fut.stalls(),
            State::B { fut } => fut.stalls(),
            State::Empty => false,
        }
    }

    open spec fn may_stall(&self) -> bool {
        match self.state {
            State::A { fut } => fut.may_stall() || exists|r: Fut1::Output, next: Fut2|
                fut.admits(r) && call_ensures(*self.f, (r,), next) && next.may_stall(),
            State::B { fut } => fut.may_stall(),
            State::Empty => false,
        }
    }

    /// Pulls the first operation until it resolves, runs the follow-up on
    /// its outcome, then pulls the second operation. The second operation
    /// never starts before the first has resolved, and a value is handed
    /// out only by the second. While the first operation stalls, the pull
    /// is pending and the follow-up does not run; once the first operation
    /// cannot stall, the pull runs the follow-up. In the pull that runs the
    /// follow-up, the operation it started decides: the pull is pending
    /// when that operation stalls, and hands out what that operation
    /// resolves to.
    fn poll(&mut self, cx: &mut Context<'_>) -> (out: Poll<Fut2::Output>)
        ensures
            final(self).f == old(self).f,
            out is Ready ==> final(self).state is Empty,
            out is Pending ==> !(final(self).state is Empty),
            old(self).state.followed_up() ==> final(self).state.followed_up(),
            old(self).state matches State::A { fut } && fut.stalls() ==> final(self).state is A,
            old(self).state matches State::A { fut } && !fut.may_stall() ==> final(self).state.followed_up(),
            old(self).state is A && final(self).state.followed_up() ==> exists|
                r: Fut1::Output,
                next: Fut2,
            |
                {
                    &&& (old(self).state->A_fut).admits(r)
                    &&& call_ensures(*old(self).f, (r,), next)
                    &&& next.stalls() ==> out is Pending
                    &&& out is Pending ==> next.may_stall()
                    &&& forall|v: Fut2::Output| out == Poll::Ready(v) ==> next.admits(v)
                },
    {
        let first = match &mut self.state {
            State::A { fut } => Some(fut.poll(cx)),
            _ => None,
        };
        if let Some(polled) = first {
            if let Some(out) = self.first_polled(polled) {
                return out;
            }
        }
        let ghost started = self.state;
        let ghost outcome = first;
        let second = match &mut self.state {
            State::B { fut } => fut.poll(cx),
            _ => Poll::Pending,
        };
        proof {
            if old(self).state is A {
                let r = outcome->Some_0->Ready_0;
                let next = started->B_fut;
                assert((old(self).state->A_fut).admits(r) && call_ensures(*old(self).f, (r,), next));
            }
        }
        self.second_polled(second)
    }
}

} // verus!
