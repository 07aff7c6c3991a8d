//! The body of one chunk.

use crate::body::frame::Frame;
use crate::body::size_hint::SizeHint;
use crate::body::{Body, Pulled};
use crate::task::Poll;
use core::convert::Infallible;
use core::task::Context;
use vstd::prelude::*;

verus! {

/// A body that emits its bytes as one data frame and then ends. Without
/// bytes it emits no frame at all.
#[derive(Debug, Clone)]
pub struct Full {
    pub data: Option<Vec<u8>>,
    pub ended: bool,
}

impl Full {
    /// The body of `data`.
    pub fn new(data: Vec<u8>) -> (body: Self)
        ensures
            !body.ended,
            body.data == (if data@.len() > 0 {
                Some(data)
            } else {
                None
            }),
    {
        if data.len() > 0 {
            Full { data: Some(data), ended: false }
        } else {
            Full { data: None, ended: false }
        }
    }
}

impl Body for Full {
    type Error = Infallible;

    open spec fn remaining(&self) -> Seq<Result<Frame, Infallible>> {
        match self.data {
            Some(data) => seq![Ok::<Frame, Infallible>(Frame::Data(data))],
            None => Seq::empty(),
        }
    }

    open spec fn pullable(&self) -> bool {
        !self.ended
    }

    open spec fn hint(&self) -> (u64, Option<u64>) {
        match self.data {
            Some(data) => (data@.len() as u64, Some(data@.len() as u64)),
            None => (0, Some(0)),
        }
    }

    open spec fn waits(&self, i: nat) -> nat {
        0
    }

    fn poll_frame(&mut self, cx: &mut Context<'_>) -> (out: Pulled<Infallible>)
        ensures
            out is Ready,
            final(self).data is None,
            final(self).ended == (old(self).data is None),
    {
        match self.data.take() {
            Some(data) => {
                assert(seq![Ok::<Frame, Infallible>(Frame::Data(data))].skip(1) =~= Seq::empty());
                Poll::Ready(Some(Ok(Frame::data(data))))
            },
            None => {
                self.ended = true;
                Poll::Ready(None)
            },
        }
    }

    /// Exactly the bytes that are left.
    fn size_hint(&self) -> (hint: SizeHint) {
        match &self.data {
            Some(data) => SizeHint::with_exact(data.len() as u64),
            None => SizeHint::with_exact(0),
        }
    }
}

} // verus!
