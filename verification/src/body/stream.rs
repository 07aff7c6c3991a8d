//! Bridges between bodies and lazy sequences of items.

use crate::body::frame::Frame;
use crate::body::size_hint::SizeHint;
use crate::body::{Body, Count, Pulled};
use crate::task::Poll;
use core::task::Context;
use vstd::prelude::*;

verus! {

/// What a lazy sequence has left to hand out, in order. A value of this
/// type exists in contracts only.
pub type Items<T> = Seq<T>;

/// A lazy sequence: it hands out one item per pull and signals its end
/// once.
pub trait Stream {
    type Item;

    /// The items still to come, in order.
    spec fn items(&self) -> Items<Self::Item>;

    /// Whether the sequence may be pulled: it is well formed and has not
    /// signalled its end.
    spec fn pollable(&self) -> bool;

    /// The bounds that the sequence reports on the number of items left.
    spec fn bounds(&self) -> (usize, Option<usize>);

    /// How many pulls find nothing ready before the sequence hands out the
    /// `i`-th of what it has left, counted from 0; for `i` the number of
    /// items left, before it signals its end.
    spec fn waits(&self, i: Count) -> Count;

    /// Pulls the sequence once. The pull reports `Pending` exactly when the
    /// sequence has a wait before its next item; that uses up one wait and
    /// changes nothing else. An item is the first of what was left and
    /// leaves the rest with its waits. `None` comes only when nothing was
    /// left, and ends the sequence.
    fn poll_next(&mut self, cx: &mut Context<'_>) -> (out: Poll<Option<Self::Item>>)
        requires
            old(self).pollable(),
        ensures
            (out is Pending) == (old(self).waits(0) > 0),
            match out {
                Poll::Pending => {
                    &&& final(self).pollable()
                    &&& final(self).items() == old(self).items()
                    &&& final(self).waits(0) == old(self).waits(0) - 1
                    &&& forall|i: nat| i > 0 ==> final(self).waits(i) == old(self).waits(i)
                },
                Poll::Ready(Some(item)) => {
                    &&& old(self).items().len() > 0
                    &&& item == old(self).items()[0]
                    &&& final(self).items() == old(self).items().skip(1)
                    &&& final(self).pollable()
                    &&& forall|i: nat| final(self).waits(i) == old(self).waits(i + 1)
                },
                Poll::Ready(None) => {
                    &&& old(self).items().len() == 0
                    &&& final(self).items().len() == 0
                    &&& !final(self).pollable()
                },
            },
    ;

    /// A lower and, where known, an upper bound on the number of items left.
    fn size_hint(&self) -> (bounds: (usize, Option<usize>))
        ensures
            bounds == self.bounds(),
    ;
}

/// A lazy sequence of frames and failures, seen as a body.
#[derive(Debug, Clone, Copy)]
pub struct StreamBody<S> {
    pub stream: S,
}

impl<S> StreamBody<S> {
    pub fn new(stream: S) -> (body: Self)
        ensures
            body.stream == stream,
    {
        Self { stream }
    }

    /// The sequence inside.
    pub fn get_ref(&self) -> (stream: &S)
        ensures
            *stream == self.stream,
    {
        &self.stream
    }

    /// The sequence inside, to be changed in place.
    pub fn get_mut(&mut self) -> (stream: &mut S)
        ensures
            *stream == old(self).stream,
            final(self).stream == *final(stream),
    {
        &mut self.stream
    }

    /// Gives the sequence back.
    pub fn into_inner(self) -> (stream: S)
        ensures
            stream == self.stream,
    {
        self.stream
    }
}

impl<S, E> Body for StreamBody<S> where S: Stream<Item = Result<Frame, E>> {
    type Error = E;

    open spec fn remaining(&self) -> Seq<Result<Frame, E>> {
        self.stream.items()
    }

    open spec fn pullable(&self) -> bool {
        self.stream.pollable()
    }

    open spec fn hint(&self) -> (u64, Option<u64>) {
        (0, None)
    }

    open spec fn waits(&self, i: nat) -> nat {
        self.stream.waits(i)
    }

    /// Pulls the sequence: its items are the frames.
    fn poll_frame(&mut self, cx: &mut Context<'_>) -> (out: Pulled<E>) {
        self.stream.poll_next(cx)
    }

    /// Nothing is known of the bytes a sequence will carry.
    fn size_hint(&self) -> (hint: SizeHint) {
        SizeHint::default()
    }
}

impl<S: Stream> Stream for StreamBody<S> {
    type Item = S::Item;

    open spec fn items(&self) -> Seq<S::Item> {
        self.stream.items()
    }

    open spec fn pollable(&self) -> bool {
        self.stream.pollable()
    }

    open spec fn bounds(&self) -> (usize, Option<usize>) {
        self.stream.bounds()
    }

    open spec fn waits(&self, i: nat) -> nat {
        self.stream.waits(i)
    }

    fn poll_next(&mut self, cx: &mut Context<'_>) -> (out: Poll<Option<S::Item>>) {
        self.stream.poll_next(cx)
    }

    fn size_hint(&self) -> (bounds: (usize, Option<usize>)) {
        self.stream.size_hint()
    }
}

/// A body, seen as a lazy sequence of frames and failures.
#[derive(Debug, Clone, Copy)]
pub struct BodyStream<B> {
    pub body: B,
}

impl<B> BodyStream<B> {
    pub fn new(body: B) -> (stream: Self)
        ensures
            stream.body == body,
    {
        Self { body }
    }

    /// The body inside.
    pub fn get_ref(&self) -> (body: &B)
        ensures
            *body == self.body,
    {
        &self.body
    }

    /// The body inside, to be changed in place.
    pub fn get_mut(&mut self) -> (body: &mut B)
        ensures
            *body == old(self).body,
            final(self).body == *final(body),
    {
        &mut self.body
    }

    /// Gives the body back.
    pub fn into_inner(self) -> (body: B)
        ensures
            body == self.body,
    {
        self.body
    }
}

impl<B: Body> Stream for BodyStream<B> {
    type Item = Result<Frame, B::Error>;

    open spec fn items(&self) -> Seq<Result<Frame, B::Error>> {
        self.body.remaining()
    }

    open spec fn pollable(&self) -> bool {
        self.body.pullable()
    }

    open spec fn bounds(&self) -> (usize, Option<usize>) {
        (0, None)
    }

    open spec fn waits(&self, i: nat) -> nat {
        self.body.waits(i)
    }

    /// Pulls the body: its frames are the items.
    fn poll_next(&mut self, cx: &mut Context<'_>) -> (out: Poll<Option<Result<Frame, B::Error>>>) {
        self.body.poll_frame(cx)
    }

    /// Nothing is known of the number of frames a body will emit.
    fn size_hint(&self) -> (bounds: (usize, Option<usize>)) {
        (0, None)
    }
}

impl<B: Body> Body for BodyStream<B> {
    type Error = B::Error;

    open spec fn remaining(&self) -> Seq<Result<Frame, B::Error>> {
        self.body.remaining()
    }

    open spec fn pullable(&self) -> bool {
        self.body.pullable()
    }

    open spec fn hint(&self) -> (u64, Option<u64>) {
        self.body.hint()
    }

    open spec fn waits(&self, i: nat) -> nat {
        self.body.waits(i)
    }

    fn poll_frame(&mut self, cx: &mut Context<'_>) -> (out: Pulled<B::Error>) {
        self.body.poll_frame(cx)
    }

    fn size_hint(&self) -> (hint: SizeHint) {
        self.body.size_hint()
    }
}

} // verus!
