//! The body without content.

use crate::body::frame::Frame;
use crate::body::size_hint::SizeHint;
use crate::body::{Body, Pulled};
use crate::task::Poll;
use core::convert::Infallible;
use core::task::Context;
use vstd::prelude::*;

verus! {

/// A body that emits no frame and signals its end at the first pull.
#[derive(Debug, Clone, Copy)]
pub struct Empty {
    pub ended: bool,
}

impl Empty {
    pub fn new() -> (body: Self)
        ensures
            !body.ended,
    {
        Empty { ended: false }
    }
}

impl Default for Empty {
    fn default() -> (body: Self)
        ensures
            !body.ended,
    {
        Empty::new()
    }
}

impl Body for Empty {
    type Error = Infallible;

    open spec fn remaining(&self) -> Seq<Result<Frame, Infallible>> {
        Seq::empty()
    }

    open spec fn pullable(&self) -> bool {
        !self.ended
    }

    open spec fn hint(&self) -> (u64, Option<u64>) {
        (0, Some(0))
    }

    open spec fn waits(&self, i: nat) -> nat {
        0
    }

    fn poll_frame(&mut self, cx: &mut Context<'_>) -> (out: Pulled<Infallible>)
        ensures
            out == Pulled::<Infallible>::Ready(None),
            final(self).ended,
    {
        self.ended = true;
        Poll::Ready(None)
    }

    /// Exactly no bytes.
    fn size_hint(&self) -> (hint: SizeHint) {
        SizeHint::with_exact(0)
    }
}

} // verus!
