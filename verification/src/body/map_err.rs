//! Mapping the failures of a body.

use crate::body::frame::Frame;
use crate::body::size_hint::SizeHint;
use crate::body::{Body, Pulled};
use crate::task::Poll;
use core::task::Context;
use vstd::prelude::*;

verus! {

/// A body whose failures are passed through a function. Frames pass
/// unchanged.
#[derive(Clone, Copy)]
pub struct MapErr<B, F> {
    pub body: B,
    pub f: F,
}

/// The failure that `f` makes of `e`.
pub open spec fn mapped_error<E1, E2, F: Fn(E1) -> E2>(f: F, e: E1) -> E2 {
    choose|w: E2| call_ensures(f, (e,), w)
}

/// Whether `f` may be run on `e` and then gives one failure only.
pub open spec fn maps_error<E1, E2, F: Fn(E1) -> E2>(f: F, e: E1) -> bool {
    call_requires(f, (e,)) && forall|w: E2| call_ensures(f, (e,), w) ==> w == mapped_error(f, e)
}

/// What is handed out in place of `item`: a frame as it is, a failure
/// passed through `f`.
pub open spec fn map_err_item<E1, E2, F: Fn(E1) -> E2>(f: F, item: Result<Frame, E1>) -> Result<
    Frame,
    E2,
> {
    match item {
        Ok(frame) => Ok(frame),
        Err(e) => Err(mapped_error(f, e)),
    }
}

impl<B, F> MapErr<B, F> {
    pub fn new(body: B, f: F) -> (map_err: Self)
        ensures
            map_err.body == body,
            map_err.f == f,
    {
        Self { body, f }
    }

    /// The body inside.
    pub fn get_ref(&self) -> (body: &B)
        ensures
            *body == self.body,
    {
        &self.body
    }

    /// The body inside, to be changed in place.
    pub fn get_mut(&mut self) -> (body: &mut B)
        ensures
            *body == old(self).body,
            final(self).body == *final(body),
            final(self).f == old(self).f,
    {
        &mut self.body
    }

    /// Gives the body back and drops the function.
    pub fn into_inner(self) -> (body: B)
        ensures
            body == self.body,
    {
        self.body
    }

    /// Takes what a pull of the inner body gave: a failure is passed
    /// through the function, everything else is handed on as it is.
    pub fn polled<E1, E2>(&self, polled: Pulled<E1>) -> (out: Pulled<E2>) where F: Fn(E1) -> E2
        requires
            polled matches Poll::Ready(Some(Err(e))) ==> call_requires(self.f, (e,)),
        ensures
            match polled {
                Poll::Pending => out == Pulled::<E2>::Pending,
                Poll::Ready(None) => out == Pulled::<E2>::Ready(None),
                Poll::Ready(Some(Ok(frame))) => out == Pulled::<E2>::Ready(Some(Ok(frame))),
                Poll::Ready(Some(Err(e))) => out matches Poll::Ready(Some(Err(w))) && call_ensures(
                    self.f,
                    (e,),
                    w,
                ),
            },
    {
        match polled {
            Poll::Pending => Poll::Pending,
            Poll::Ready(None) => Poll::Ready(None),
            Poll::Ready(Some(Ok(frame))) => Poll::Ready(Some(Ok(frame))),
            Poll::Ready(Some(Err(err))) => Poll::Ready(Some(Err((self.f)(err)))),
        }
    }
}

impl<B, F, E> Body for MapErr<B, F> where B: Body, F: Fn(B::Error) -> E {
    type Error = E;

    open spec fn remaining(&self) -> Seq<Result<Frame, E>> {
        self.body.remaining().map_values(|item: Result<Frame, B::Error>| map_err_item(self.f, item))
    }

    open spec fn pullable(&self) -> bool {
        self.body.pullable() && forall|i: int|
            0 <= i < self.body.remaining().len() ==> (#[trigger] self.body.remaining()[i]
                matches Err(e) ==> maps_error(self.f, e))
    }

    open spec fn hint(&self) -> (u64, Option<u64>) {
        self.body.hint()
    }

    open spec fn waits(&self, i: nat) -> nat {
        self.body.waits(i)
    }

    /// Pulls the inner body once and maps a failure. An item has left the
    /// inner body; a pending pull leaves the inner body with all it had.
    fn poll_frame(&mut self, cx: &mut Context<'_>) -> (out: Pulled<E>)
        ensures
            final(self).f == old(self).f,
            match out {
                Poll::Ready(Some(_)) => old(self).body.remaining().len() > 0 && final(self).body.remaining() == old(self).body.remaining().skip(1),
                Poll::Ready(None) => old(self).body.remaining().len() == 0,
                Poll::Pending => final(self).body.remaining() == old(self).body.remaining(),
            },
    {
        let ghost frames = self.body.remaining();
        let polled = self.body.poll_frame(cx);
        proof {
            if polled is Ready && polled->Ready_0 is Some {
                assert(polled->Ready_0->Some_0 == frames[0]);
                assert(self.remaining() =~= old(self).remaining().skip(1));
                assert forall|i: int| 0 <= i < self.body.remaining().len() implies (
                #[trigger] self.body.remaining()[i] matches Err(e) ==> maps_error(self.f, e)) by {
                    assert(self.body.remaining()[i] == frames[i + 1]);
                }
            }
        }
        self.polled(polled)
    }

    fn size_hint(&self) -> (hint: SizeHint) {
        self.body.size_hint()
    }
}

} // verus!
