//! A thread-safe wrapper that hides what body it holds.

use crate::body::empty::Empty;
use crate::body::frame::Frame;
use crate::body::size_hint::SizeHint;
use crate::body::{Body, Pulled};
use crate::error::BoxError;
use crate::task::Poll;
use core::task::Context;
use vstd::prelude::*;
use vstd::std_specs::convert::IntoSpec;

verus! {

/// What `item` becomes behind the uniform error type: a frame stays, a
/// failure is converted.
pub open spec fn boxed_item<E: Into<BoxError>>(item: Result<Frame, E>) -> Result<Frame, BoxError> {
    match item {
        Ok(frame) => Ok(frame),
        Err(e) => Err(e.into_spec()),
    }
}

/// Takes what a pull of a body gave and converts a failure into the
/// uniform error. Everything else is handed on as it is.
pub fn box_polled<E: Into<BoxError>>(polled: Pulled<E>) -> (out: Pulled<BoxError>)
    ensures
        match polled {
            Poll::Pending => out == Pulled::<BoxError>::Pending,
            Poll::Ready(None) => out == Pulled::<BoxError>::Ready(None),
            Poll::Ready(Some(Ok(frame))) => out == Pulled::<BoxError>::Ready(Some(Ok(frame))),
            Poll::Ready(Some(Err(e))) => out matches Poll::Ready(Some(Err(converted)))
                && call_ensures(E::into, (e,), converted),
        },
{
    match polled {
        Poll::Pending => Poll::Pending,
        Poll::Ready(None) => Poll::Ready(None),
        Poll::Ready(Some(Ok(frame))) => Poll::Ready(Some(Ok(frame))),
        Poll::Ready(Some(Err(err))) => Poll::Ready(Some(Err(err.into()))),
    }
}

/// What an erased body can do; the one interface behind a [`BoxBody`].
pub trait AnyBody: Send {
    spec fn any_remaining(&self) -> Seq<Result<Frame, BoxError>>;

    spec fn any_pullable(&self) -> bool;

    spec fn any_hint(&self) -> (u64, Option<u64>);

    spec fn any_waits(&self, i: nat) -> nat;

    fn poll_any(&mut self, cx: &mut Context<'_>) -> (out: Pulled<BoxError>)
        requires
            old(self).any_pullable(),
        ensures
            (out is Pending) == (old(self).any_waits(0) > 0),
            match out {
                Poll::Pending => {
                    &&& final(self).any_pullable()
                    &&& final(self).any_remaining() == old(self).any_remaining()
                    &&& final(self).any_waits(0) == old(self).any_waits(0) - 1
                    &&& forall|i: nat| i > 0 ==> final(self).any_waits(i) == old(self).any_waits(i)
                },
                Poll::Ready(Some(item)) => {
                    &&& old(self).any_remaining().len() > 0
                    &&& item == old(self).any_remaining()[0]
                    &&& final(self).any_remaining() == old(self).any_remaining().skip(1)
                    &&& final(self).any_pullable()
                    &&& forall|i: nat| final(self).any_waits(i) == old(self).any_waits(i + 1)
                },
                Poll::Ready(None) => {
                    &&& old(self).any_remaining().len() == 0
                    &&& final(self).any_remaining().len() == 0
                    &&& !final(self).any_pullable()
                },
            },
    ;

    fn hint_any(&self) -> (hint: SizeHint)
        ensures
            (hint.lower(), hint.upper()) == self.any_hint(),
    ;
}

/// A body on its way behind an erased interface.
pub struct ErasedBody<B>(pub B);

impl<B> AnyBody for ErasedBody<B> where B: Body + Send, B::Error: Into<BoxError> {
    open spec fn any_remaining(&self) -> Seq<Result<Frame, BoxError>> {
        self.0.remaining().map_values(|item: Result<Frame, B::Error>| boxed_item(item))
    }

    open spec fn any_pullable(&self) -> bool {
        self.0.pullable() && <B::Error as IntoSpec<BoxError>>::obeys_into_spec()
    }

    open spec fn any_hint(&self) -> (u64, Option<u64>) {
        self.0.hint()
    }

    open spec fn any_waits(&self, i: nat) -> nat {
        self.0.waits(i)
    }

    fn poll_any(&mut self, cx: &mut Context<'_>) -> (out: Pulled<BoxError>) {
        let polled = self.0.poll_frame(cx);
        proof {
            if polled is Ready && polled->Ready_0 is Some {
                assert(self.any_remaining() =~= old(self).any_remaining().skip(1));
            }
        }
        box_polled(polled)
    }

    fn hint_any(&self) -> (hint: SizeHint) {
        self.0.size_hint()
    }
}

/// A body on the heap whose concrete type is hidden behind the uniform
/// error type. It may cross to another thread.
pub struct BoxBody {
    pub body: Box<dyn AnyBody>,
}

impl BoxBody {
    /// Moves `body` to the heap and hides its type. The wrapper emits the
    /// frames of `body`, with every failure converted, can be pulled when
    /// `body` can and its failures convert as stated, and reports the hint
    /// of `body`.
    pub fn new<B>(body: B) -> (boxed: Self) where B: Body + Send + 'static, B::Error: Into<BoxError>
        ensures
            boxed.remaining() == body.remaining().map_values(
                |item: Result<Frame, B::Error>| boxed_item(item),
            ),
            boxed.pullable() == (body.pullable() && <B::Error as IntoSpec<
                BoxError,
            >>::obeys_into_spec()),
            boxed.hint() == body.hint(),
            forall|i: nat| boxed.waits(i) == body.waits(i),
    {
        Self { body: Box::new(ErasedBody(body)) }
    }
}

impl Default for BoxBody {
    /// The wrapper of the body without content.
    fn default() -> (boxed: Self)
        ensures
            boxed.pullable(),
            boxed.remaining().len() == 0,
            forall|i: nat| boxed.waits(i) == 0,
            boxed.hint() == (0u64, Some(0u64)),
    {
        BoxBody::new(Empty::new())
    }
}

impl Body for BoxBody {
    type Error = BoxError;

    open spec fn remaining(&self) -> Seq<Result<Frame, BoxError>> {
        self.body.any_remaining()
    }

    open spec fn pullable(&self) -> bool {
        self.body.any_pullable()
    }

    open spec fn hint(&self) -> (u64, Option<u64>) {
        self.body.any_hint()
    }

    open spec fn waits(&self, i: nat) -> nat {
        self.body.any_waits(i)
    }

    /// Pulls the body it holds.
    fn poll_frame(&mut self, cx: &mut Context<'_>) -> (out: Pulled<BoxError>) {
        self.body.poll_any(cx)
    }

    fn size_hint(&self) -> (hint: SizeHint) {
        self.body.hint_any()
    }
}

} // verus!
