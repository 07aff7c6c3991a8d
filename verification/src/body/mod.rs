//! Bodies and their combinators.

use crate::task::Poll;
use core::task::Context;
use vstd::prelude::*;

pub mod boxed;
pub mod boxed_local;
pub mod buf_list;
pub mod collect;
pub mod empty;
pub mod ext;
pub mod frame;
pub mod full;
pub mod limited;
pub mod map_err;
pub mod next;
pub mod size_hint;
pub mod stream;
pub mod trailers;

pub use boxed::BoxBody;
pub use boxed_local::LocalBoxBody;
pub use buf_list::BufList;
pub use collect::{Collect, Collected};
pub use empty::Empty;
pub use ext::BodyExt;
pub use frame::Frame;
pub use full::Full;
pub use limited::Limited;
pub use map_err::MapErr;
pub use next::Next;
pub use size_hint::SizeHint;
pub use stream::{BodyStream, Stream, StreamBody};

verus! {

/// What one pull of a body gives: a frame or a failure, or `None` for the
/// end of the body.
pub type Pulled<E> = Poll<Option<Result<Frame, E>>>;

/// What a body has left to emit: frames and failures, in order. A value of
/// this type exists in contracts only.
pub type Frames<E> = Seq<Result<Frame, E>>;

/// A number of items or of pulls. A value of this type exists in contracts
/// only.
pub type Count = nat;

/// A single-pass source of frames. It hands out one frame per pull, in the
/// order of emission, and signals its end once.
pub trait Body {
    type Error;

    /// What the body has left to emit, in order: each item is a frame or
    /// the failure of one pull.
    spec fn remaining(&self) -> Frames<Self::Error>;

    /// Whether the body may be pulled: it is well formed and has not
    /// signalled its end. Pulling a body after its end is a caller's error,
    /// which `poll_frame` rules out by demanding this.
    spec fn pullable(&self) -> bool;

    /// The lower and upper bound of the size hint that the body reports in
    /// its present state.
    spec fn hint(&self) -> (u64, Option<u64>);

    /// How many pulls find nothing ready before the body hands out the
    /// `i`-th of what it has left, counted from 0; for `i` the number of
    /// items left, before it signals its end.
    spec fn waits(&self, i: Count) -> Count;

    /// Pulls the body once. The pull reports `Pending` exactly when the
    /// body has a wait before its next item; that uses up one wait and
    /// changes nothing else. An item is the first of what was left and
    /// leaves the rest with its waits. `None` comes only when nothing was
    /// left, and ends the body.
    fn poll_frame(&mut self, cx: &mut Context<'_>) -> (out: Pulled<Self::Error>)
        requires
            old(self).pullable(),
        ensures
            (out is Pending) == (old(self).waits(0) > 0),
            match out {
                Poll::Pending => {
                    &&& final(self).pullable()
                    &&& final(self).remaining() == old(self).remaining()
                    &&& final(self).waits(0) == old(self).waits(0) - 1
                    &&& forall|i: nat| i > 0 ==> final(self).waits(i) == old(self).waits(i)
                },
                Poll::Ready(Some(item)) => {
                    &&& old(self).remaining().len() > 0
                    &&& item == old(self).remaining()[0]
                    &&& final(self).remaining() == old(self).remaining().skip(1)
                    &&& final(self).pullable()
                    &&& forall|i: nat| final(self).waits(i) == old(self).waits(i + 1)
                },
                Poll::Ready(None) => {
                    &&& old(self).remaining().len() == 0
                    &&& final(self).remaining().len() == 0
                    &&& !final(self).pullable()
                },
            },
    ;

    /// A lower and, where known, an upper bound on the content bytes left.
    fn size_hint(&self) -> (hint: SizeHint)
        ensures
            (hint.lower(), hint.upper()) == self.hint(),
    ;
}

} // verus!
