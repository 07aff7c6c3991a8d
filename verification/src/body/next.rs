//! Pulling one frame as an operation.

use crate::body::frame::Frame;
use crate::body::Body;
use crate::task::{Operation, Poll};
use core::task::Context;
use vstd::prelude::*;

verus! {

/// The operation that pulls exactly one frame from a body it borrows. It
/// resolves to the frame or failure, or to `None` at the end of the body.
#[must_use]
#[derive(Debug)]
pub struct Next<'a, B> {
    pub body: &'a mut B,
    pub done: bool,
}

/// What the next pull of a body that has `frames` left resolves to.
pub open spec fn next_item<E>(frames: Seq<Result<Frame, E>>) -> Option<Result<Frame, E>> {
    if frames.len() > 0 {
        Some(frames[0])
    } else {
        None
    }
}

impl<'a, B: Body> Next<'a, B> {
    /// Borrows `body` for one pull.
    pub fn new(body: &'a mut B) -> (next: Self)
        ensures
            *next.body == *old(body),
            !next.done,
            *final(body) == *final(next.body),
    {
        Next { body, done: false }
    }
}

impl<'a, B: Body> Operation for Next<'a, B> {
    type Output = Option<Result<Frame, B::Error>>;

    open spec fn pollable(&self) -> bool {
        !self.done && self.body.pullable()
    }

    open spec fn admits(&self, v: Option<Result<Frame, B::Error>>) -> bool {
        !self.done && v == next_item(self.body.remaining())
    }

    open spec fn stalls(&self) -> bool {
        self.body.waits(0) > 0
    }

    open spec fn may_stall(&self) -> bool {
        self.body.waits(0) > 0
    }

    /// Pulls the body once. What the body gives resolves the operation and
    /// has left the body; while the body has a wait before its next item, the
    /// operation is pending.
    fn poll(&mut self, cx: &mut Context<'_>) -> (out: Poll<Option<Result<Frame, B::Error>>>)
        ensures
            (out is Pending) == (old(self).body.waits(0) > 0),
            final(self).done == (out is Ready),
            out is Ready ==> final(self).body.remaining() == old(self).body.remaining().skip(1)
                || (old(self).body.remaining().len() == 0 && final(self).body.remaining().len()
                == 0),
            out is Pending ==> final(self).body.remaining() == old(self).body.remaining(),
    {
        let polled = self.body.poll_frame(cx);
        if polled.is_ready() {
            self.done = true;
        }
        polled
    }
}

} // verus!
