//! The combinators as methods of every body.

use crate::body::boxed::{boxed_item, BoxBody};
use crate::body::boxed_local::LocalBoxBody;
use crate::body::collect::{Collect, CollectedView};
use crate::body::frame::Frame;
use crate::body::limited::Limited;
use crate::body::map_err::MapErr;
use crate::body::next::Next;
use crate::body::stream::BodyStream;
use crate::body::Body;
use crate::error::BoxError;
use vstd::prelude::*;
use vstd::std_specs::convert::IntoSpec;

verus! {

/// What every body can be turned into.
pub trait BodyExt: Body + Sized {
    /// The operation that pulls one frame.
    fn next(&mut self) -> (next: Next<'_, Self>)
        ensures
            *next.body == *old(self),
            !next.done,
            *final(self) == *final(next.body),
    {
        Next::new(self)
    }

    /// This body with its failures passed through `f`.
    fn map_err<F, E>(self, f: F) -> (mapped: MapErr<Self, F>) where F: Fn(Self::Error) -> E
        ensures
            mapped.body == self,
            mapped.f == f,
    {
        MapErr::new(self, f)
    }

    /// This body as a lazy sequence of frames.
    fn stream(self) -> (stream: BodyStream<Self>)
        ensures
            stream.body == self,
    {
        BodyStream::new(self)
    }

    /// This body under a budget of `limit` content bytes.
    fn limit(self, limit: usize) -> (limited: Limited<Self>)
        ensures
            limited.body == self,
            limited.remaining == limit,
    {
        Limited::new(self, limit)
    }

    /// The operation that drains this body.
    fn collect(self) -> (collect: Collect<Self>)
        ensures
            collect.body == self,
            collect.collected matches Some(collected) && collected.wf() && !collected.ended()
                && collected@ == CollectedView::empty(),
    {
        Collect::new(self)
    }

    /// This body with its type hidden, ready to cross threads.
    fn boxed(self) -> (boxed: BoxBody) where Self: Send + 'static, Self::Error: Into<BoxError>
        ensures
            boxed.remaining() == self.remaining().map_values(
                |item: Result<Frame, Self::Error>| boxed_item(item),
            ),
            boxed.pullable() == (self.pullable() && <Self::Error as IntoSpec<
                BoxError,
            >>::obeys_into_spec()),
            boxed.hint() == self.hint(),
            forall|i: nat| boxed.waits(i) == self.waits(i),
    ;

    /// This body with its type hidden, for one thread.
    fn boxed_local(self) -> (boxed: LocalBoxBody) where
        Self: 'static,
        Self::Error: Into<BoxError>,

        ensures
            boxed.remaining() == self.remaining().map_values(
                |item: Result<Frame, Self::Error>| boxed_item(item),
            ),
            boxed.pullable() == (self.pullable() && <Self::Error as IntoSpec<
                BoxError,
            >>::obeys_into_spec()),
            boxed.hint() == self.hint(),
            forall|i: nat| boxed.waits(i) == self.waits(i),
    ;
}

impl<B: Body> BodyExt for B {
    fn boxed(self) -> (boxed: BoxBody) where Self: Send + 'static, Self::Error: Into<BoxError> {
        BoxBody::new(self)
    }

    fn boxed_local(self) -> (boxed: LocalBoxBody) where
        Self: 'static,
        Self::Error: Into<BoxError>,
     {
        LocalBoxBody::new(self)
    }
}

} // verus!
