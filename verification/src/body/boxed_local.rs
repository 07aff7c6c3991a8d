//! A single-threaded wrapper that hides what body it holds.

use crate::body::boxed::{box_polled, boxed_item, ErasedBody};
use crate::body::empty::Empty;
use crate::body::frame::Frame;
use crate::body::size_hint::SizeHint;
use crate::body::{Body, Pulled};
use crate::error::BoxError;
use crate::task::Poll;
use core::task::Context;
use vstd::prelude::*;
use vstd::std_specs::convert::IntoSpec;

verus! {

/// What an erased body can do; the one interface behind a
/// [`LocalLocalBoxBody`].
pub trait LocalAnyBody {
    spec fn any_remaining(&self) -> Seq<Result<Frame, BoxError>>;

    spec fn any_pullable(&self) -> bool;

    spec fn any_hint(&self) -> (u64, Option<u64>);

    spec fn any_waits(&self, i: nat) -> nat;

    fn poll_any(&mut self, cx: &mut Context<'_>) -> (out: Pulled<BoxError>)
        requires
            old(self).any_pullable(),
        ensures
            (out is Pending) == (old(self).any_waits(0) > 0),
            match out {
                Poll::Pending => {
                    &&& final(self).any_pullable()
                    &&& final(self).any_remaining() == old(self).any_remaining()
                    &&& final(self).any_waits(0) == old(self).any_waits(0) - 1
                    &&& forall|i: nat| i > 0 ==> final(self).any_waits(i) == old(self).any_waits(i)
                },
                Poll::Ready(Some(item)) => {
                    &&& old(self).any_remaining().len() > 0
                    &&& item == old(self).any_remaining()[0]
                    &&& final(self).any_remaining() == old(self).any_remaining().skip(1)
                    &&& final(self).any_pullable()
                    &&& forall|i: nat| final(self).any_waits(i) == old(self).any_waits(i + 1)
                },
                Poll::Ready(None) => {
                    &&& old(self).any_remaining().len() == 0
                    &&& final(self).any_remaining().len() == 0
                    &&& !final(self).any_pullable()
                },
            },
    ;

    fn hint_any(&self) -> (hint: SizeHint)
        ensures
            (hint.lower(), hint.upper()) == self.any_hint(),
    ;
}

impl<B> LocalAnyBody for ErasedBody<B> where B: Body, B::Error: Into<BoxError> {
    open spec fn any_remaining(&self) -> Seq<Result<Frame, BoxError>> {
        self.0.remaining().map_values(|item: Result<Frame, B::Error>| boxed_item(item))
    }

    open spec fn any_pullable(&self) -> bool {
        self.0.pullable() && <B::Error as IntoSpec<BoxError>>::obeys_into_spec()
    }

    open spec fn any_hint(&self) -> (u64, Option<u64>) {
        self.0.hint()
    }

    open spec fn any_waits(&self, i: nat) -> nat {
        self.0.waits(i)
    }

    fn poll_any(&mut self, cx: &mut Context<'_>) -> (out: Pulled<BoxError>) {
        let polled = self.0.poll_frame(cx);
        proof {
            if polled is Ready && polled->Ready_0 is Some {
                assert(self.any_remaining() =~= old(self).any_remaining().skip(1));
            }
        }
        box_polled(polled)
    }

    fn hint_any(&self) -> (hint: SizeHint) {
        self.0.size_hint()
    }
}

/// A body on the heap whose concrete type is hidden behind the uniform
/// error type. It stays on the thread that made it, and asks nothing about
/// thread safety of what it wraps.
pub struct LocalBoxBody {
    pub body: Box<dyn LocalAnyBody>,
}

impl LocalBoxBody {
    /// Moves `body` to the heap and hides its type. The wrapper emits the
    /// frames of `body`, with every failure converted, can be pulled when
    /// `body` can and its failures convert as stated, and reports the hint
    /// of `body`.
    pub fn new<B>(body: B) -> (boxed: Self) where B: Body + 'static, B::Error: Into<BoxError>
        ensures
            boxed.remaining() == body.remaining().map_values(
                |item: Result<Frame, B::Error>| boxed_item(item),
            ),
            boxed.pullable() == (body.pullable() && <B::Error as IntoSpec<
                BoxError,
            >>::obeys_into_spec()),
            boxed.hint() == body.hint(),
            forall|i: nat| boxed.waits(i) == body.waits(i),
    {
        Self { body: Box::new(ErasedBody(body)) }
    }
}

impl Default for LocalBoxBody {
    /// The wrapper of the body without content.
    fn default() -> (boxed: Self)
        ensures
            boxed.pullable(),
            boxed.remaining().len() == 0,
            forall|i: nat| boxed.waits(i) == 0,
            boxed.hint() == (0u64, Some(0u64)),
    {
        LocalBoxBody::new(Empty::new())
    }
}

impl Body for LocalBoxBody {
    type Error = BoxError;

    open spec fn remaining(&self) -> Seq<Result<Frame, BoxError>> {
        self.body.any_remaining()
    }

    open spec fn pullable(&self) -> bool {
        self.body.any_pullable()
    }

    open spec fn hint(&self) -> (u64, Option<u64>) {
        self.body.any_hint()
    }

    open spec fn waits(&self, i: nat) -> nat {
        self.body.any_waits(i)
    }

    /// Pulls the body it holds.
    fn poll_frame(&mut self, cx: &mut Context<'_>) -> (out: Pulled<BoxError>) {
        self.body.poll_any(cx)
    }

    fn size_hint(&self) -> (hint: SizeHint) {
        self.body.hint_any()
    }
}

} // verus!
