//! A byte budget on a body.

use crate::body::frame::Frame;
use crate::body::size_hint::SizeHint;
use crate::body::{Body, Pulled};
use crate::error::BoxError;
use crate::task::Poll;
use core::task::Context;
use vstd::prelude::*;
use vstd::std_specs::convert::IntoSpec;

verus! {

/// A body that lets content through only up to a number of bytes.
#[derive(Debug, Clone, Copy)]
pub struct Limited<B> {
    pub remaining: usize,
    pub body: B,
}

/// What a limited body with `budget` bytes left hands out in place of
/// `item`. A data frame longer than the budget is replaced by the capacity
/// error; the frame itself is dropped, no part of it is handed on. Any
/// other frame passes unchanged, and a failure of the inner body is
/// converted.
pub open spec fn limited_item<E: Into<BoxError>>(budget: nat, item: Result<Frame, E>) -> Result<
    Frame,
    BoxError,
> {
    match item {
        Ok(frame) => if frame.len() > budget {
            Err(BoxError::DataTooLarge)
        } else {
            Ok(frame)
        },
        Err(e) => Err(e.into_spec()),
    }
}

/// The budget that is left after `item`: 0 once a frame was too long, less
/// by the frame's length where it fitted, unchanged by a failure.
pub open spec fn budget_after<E>(budget: nat, item: Result<Frame, E>) -> nat {
    match item {
        Ok(frame) => if frame.len() > budget {
            0
        } else {
            (budget - frame.len()) as nat
        },
        Err(_) => budget,
    }
}

/// The budget that is left after all of `frames`.
pub open spec fn budget_left<E>(budget: nat, frames: Seq<Result<Frame, E>>) -> nat
    decreases frames.len(),
{
    if frames.len() == 0 {
        budget
    } else {
        budget_left(budget_after(budget, frames[0]), frames.skip(1))
    }
}

/// What a limited body with `budget` bytes left emits when the body it
/// wraps emits `frames`.
pub open spec fn limited_frames<E: Into<BoxError>>(
    budget: nat,
    frames: Seq<Result<Frame, E>>,
) -> Seq<Result<Frame, BoxError>>
    decreases frames.len(),
{
    if frames.len() == 0 {
        Seq::empty()
    } else {
        seq![limited_item(budget, frames[0])] + limited_frames(
            budget_after(budget, frames[0]),
            frames.skip(1),
        )
    }
}

/// The size hint of a limited body with `budget` bytes left around a body
/// whose hint is `inner`: the smaller of the two. It is exact only where
/// the inner lower bound already reaches the budget.
pub open spec fn limited_hint(budget: u64, inner: (u64, Option<u64>)) -> (u64, Option<u64>) {
    if inner.0 >= budget {
        (budget, Some(budget))
    } else {
        match inner.1 {
            Some(max) => (inner.0, Some(if budget <= max {
                budget
            } else {
                max
            })),
            None => (inner.0, Some(budget)),
        }
    }
}

/// The content bytes that `frames` carry: the lengths of all data frames
/// among them.
pub open spec fn content_len<E>(frames: Seq<Result<Frame, E>>) -> nat
    decreases frames.len(),
{
    if frames.len() == 0 {
        0
    } else {
        (match frames[0] {
            Ok(frame) => frame.len(),
            Err(_) => 0,
        }) + content_len(frames.skip(1))
    }
}

/// The index of the first frame with which the content of `frames` goes
/// over `budget`; the number of frames if none does.
pub open spec fn first_over<E>(budget: nat, frames: Seq<Result<Frame, E>>) -> int
    decreases frames.len(),
{
    if frames.len() == 0 {
        0
    } else {
        match frames[0] {
            Ok(frame) => if frame.len() > budget {
                0
            } else {
                1 + first_over((budget - frame.len()) as nat, frames.skip(1))
            },
            Err(_) => 1 + first_over(budget, frames.skip(1)),
        }
    }
}

/// The first frame over the budget is a place in `frames`, or their number.
pub proof fn lemma_first_over_bounds<E>(budget: nat, frames: Seq<Result<Frame, E>>)
    ensures
        0 <= first_over(budget, frames) <= frames.len(),
    decreases frames.len(),
{
    if frames.len() > 0 {
        lemma_first_over_bounds(budget_after(budget, frames[0]), frames.skip(1));
    }
}

/// A limited body emits one item for every item of the body it wraps.
pub proof fn lemma_limited_len<E: Into<BoxError>>(budget: nat, frames: Seq<Result<Frame, E>>)
    ensures
        limited_frames(budget, frames).len() == frames.len(),
    decreases frames.len(),
{
    if frames.len() > 0 {
        lemma_limited_len(budget_after(budget, frames[0]), frames.skip(1));
    }
}

/// Within the budget nothing is held back: where the content of `frames`
/// is at most `budget`, the limited body emits every frame unchanged, in
/// the same place, and converts every failure; nothing follows the last
/// item, and the budget that is left is less by the content.
pub proof fn lemma_limited_within_budget<E: Into<BoxError>>(
    budget: nat,
    frames: Seq<Result<Frame, E>>,
)
    requires
        content_len(frames) <= budget,
    ensures
        limited_frames(budget, frames).len() == frames.len(),
        forall|i: int|
            0 <= i < frames.len() ==> #[trigger] limited_frames(budget, frames)[i] == (
            match frames[i] {
                Ok(frame) => Ok::<Frame, BoxError>(frame),
                Err(e) => Err::<Frame, BoxError>(e.into_spec()),
            }),
        budget_left(budget, frames) == budget - content_len(frames),
    decreases frames.len(),
{
    lemma_limited_len(budget, frames);
    if frames.len() > 0 {
        let rest = frames.skip(1);
        let next = budget_after(budget, frames[0]);
        lemma_limited_within_budget(next, rest);
        assert forall|i: int| 0 <= i < frames.len() implies #[trigger] limited_frames(
            budget,
            frames,
        )[i] == (match frames[i] {
            Ok(frame) => Ok::<Frame, BoxError>(frame),
            Err(e) => Err::<Frame, BoxError>(e.into_spec()),
        }) by {
            if i > 0 {
                assert(limited_frames(budget, frames)[i] == limited_frames(next, rest)[i - 1]);
                assert(frames[i] == rest[i - 1]);
            }
        }
    }
}

/// Over the budget the content is cut: where the content of `frames` is
/// more than `budget`, there is a first frame with which it goes over. The
/// limited body emits everything before that frame as within the budget,
/// emits the capacity error in its place, and after it lets through no data
/// frame that carries a byte. (A data frame without bytes still passes: it
/// needs no budget.)
pub proof fn lemma_limited_over_budget<E: Into<BoxError>>(
    budget: nat,
    frames: Seq<Result<Frame, E>>,
)
    requires
        content_len(frames) > budget,
    ensures
        0 <= first_over(budget, frames) < frames.len(),
        frames[first_over(budget, frames)] is Ok,
        content_len(frames.take(first_over(budget, frames))) <= budget,
        content_len(frames.take(first_over(budget, frames) + 1)) > budget,
        limited_frames(budget, frames).len() == frames.len(),
        forall|i: int|
            0 <= i < first_over(budget, frames) ==> #[trigger] limited_frames(budget, frames)[i]
                == (match frames[i] {
                Ok(frame) => Ok::<Frame, BoxError>(frame),
                Err(e) => Err::<Frame, BoxError>(e.into_spec()),
            }),
        limited_frames(budget, frames)[first_over(budget, frames)] == Err::<Frame, BoxError>(
            BoxError::DataTooLarge,
        ),
        forall|i: int|
            first_over(budget, frames) < i < frames.len() ==> (#[trigger] limited_frames(
                budget,
                frames,
            )[i] matches Ok(Frame::Data(buf)) ==> buf@.len() == 0),
        budget_left(budget, frames) == 0,
    decreases frames.len(),
{
    lemma_limited_len(budget, frames);
    assert(frames.len() > 0);
    let k = first_over(budget, frames);
    let rest = frames.skip(1);
    let next = budget_after(budget, frames[0]);
    let limited = limited_frames(budget, frames);
    lemma_first_over_bounds(next, rest);
    if k == 0 {
        assert(frames[0] is Ok && (frames[0]->Ok_0).len() > budget);
        assert(next == 0);
        assert(frames.take(0) =~= Seq::<Result<Frame, E>>::empty());
        assert(frames.take(1) =~= seq![frames[0]]);
        assert(frames.take(1).skip(1) =~= Seq::<Result<Frame, E>>::empty());
        assert(content_len(frames.take(1).skip(1)) == 0);
        lemma_limited_after_cut(rest);
        assert forall|i: int| 0 < i < frames.len() implies (#[trigger] limited[i] matches Ok(
            Frame::Data(buf),
        ) ==> buf@.len() == 0) by {
            assert(limited[i] == limited_frames(0, rest)[i - 1]);
        }
    } else {
        lemma_limited_over_budget(next, rest);
        let j = first_over(next, rest);
        assert(k == j + 1);
        assert(frames.take(k).skip(1) =~= rest.take(j));
        assert(frames.take(k + 1).skip(1) =~= rest.take(j + 1));
        assert(frames.take(k)[0] == frames[0]);
        assert(frames.take(k + 1)[0] == frames[0]);
        assert(limited[k] == limited_frames(next, rest)[j]);
        assert forall|i: int| 0 <= i < k implies #[trigger] limited[i] == (match frames[i] {
            Ok(frame) => Ok::<Frame, BoxError>(frame),
            Err(e) => Err::<Frame, BoxError>(e.into_spec()),
        }) by {
            if i > 0 {
                assert(limited[i] == limited_frames(next, rest)[i - 1]);
                assert(frames[i] == rest[i - 1]);
            }
        }
        assert forall|i: int| k < i < frames.len() implies (#[trigger] limited[i] matches Ok(
            Frame::Data(buf),
        ) ==> buf@.len() == 0) by {
            assert(limited[i] == limited_frames(next, rest)[i - 1]);
        }
    }
}

/// With no budget left, every data frame that passes is without bytes, and
/// no budget comes back.
pub proof fn lemma_limited_after_cut<E: Into<BoxError>>(frames: Seq<Result<Frame, E>>)
    ensures
        limited_frames(0, frames).len() == frames.len(),
        forall|i: int|
            0 <= i < frames.len() ==> (#[trigger] limited_frames(0, frames)[i] matches Ok(
                Frame::Data(buf),
            ) ==> buf@.len() == 0),
        budget_left(0, frames) == 0,
    decreases frames.len(),
{
    lemma_limited_len(0, frames);
    if frames.len() > 0 {
        let rest = frames.skip(1);
        lemma_limited_after_cut(rest);
        assert(budget_after(0, frames[0]) == 0);
        assert forall|i: int| 0 <= i < frames.len() implies (#[trigger] limited_frames(
            0,
            frames,
        )[i] matches Ok(Frame::Data(buf)) ==> buf@.len() == 0) by {
            if i > 0 {
                assert(limited_frames(0, frames)[i] == limited_frames(0, rest)[i - 1]);
            }
        }
    }
}

impl<B> Limited<B> {
    /// Wraps `body` with a budget of `limit` content bytes.
    pub fn new(body: B, limit: usize) -> (limited: Self)
        ensures
            limited.remaining == limit,
            limited.body == body,
    {
        Self { remaining: limit, body }
    }

    /// Takes what a pull of the inner body gave and applies the budget to
    /// it.
    pub fn polled<E: Into<BoxError>>(&mut self, polled: Pulled<E>) -> (out: Pulled<BoxError>)
        ensures
            final(self).body == old(self).body,
            match polled {
                Poll::Pending => out == Pulled::<BoxError>::Pending && final(self).remaining
                    == old(self).remaining,
                Poll::Ready(None) => out == Pulled::<BoxError>::Ready(None) && final(self).remaining == old(self).remaining,
                Poll::Ready(Some(Ok(frame))) => {
                    &&& out == Pulled::<BoxError>::Ready(
                        Some(limited_item(old(self).remaining as nat, Ok::<Frame, E>(frame))),
                    )
                    &&& final(self).remaining == budget_after(
                        old(self).remaining as nat,
                        Ok::<Frame, E>(frame),
                    )
                },
                Poll::Ready(Some(Err(e))) => {
                    &&& out matches Poll::Ready(Some(Err(converted)))
                    &&& call_ensures(E::into, (e,), converted)
                    &&& final(self).remaining == old(self).remaining
                },
            },
    {
        match polled {
            Poll::Pending => Poll::Pending,
            Poll::Ready(None) => Poll::Ready(None),
            Poll::Ready(Some(Ok(frame))) => {
                let len = match &frame {
                    Frame::Data(data) => data.len(),
                    Frame::Trailers(_) => 0,
                };
                if len > self.remaining {
                    self.remaining = 0;
                    Poll::Ready(Some(Err(BoxError::DataTooLarge)))
                } else {
                    self.remaining -= len;
                    Poll::Ready(Some(Ok(frame)))
                }
            },
            Poll::Ready(Some(Err(err))) => Poll::Ready(Some(Err(err.into()))),
        }
    }
}

impl<B> Body for Limited<B> where B: Body, B::Error: Into<BoxError> {
    type Error = BoxError;

    open spec fn remaining(&self) -> Seq<Result<Frame, BoxError>> {
        limited_frames(self.remaining as nat, self.body.remaining())
    }

    open spec fn pullable(&self) -> bool {
        self.body.pullable() && <B::Error as IntoSpec<BoxError>>::obeys_into_spec()
    }

    open spec fn hint(&self) -> (u64, Option<u64>) {
        limited_hint(self.remaining as u64, self.body.hint())
    }

    open spec fn waits(&self, i: nat) -> nat {
        self.body.waits(i)
    }

    /// Pulls the inner body once and applies the budget to what it gave.
    /// An item, passed or replaced by the capacity error, has left the
    /// inner body; a pending pull leaves the inner body with all it had.
    fn poll_frame(&mut self, cx: &mut Context<'_>) -> (out: Pulled<BoxError>)
        ensures
            final(self).remaining == (match out {
                Poll::Ready(Some(_)) => budget_after(
                    old(self).remaining as nat,
                    old(self).body.remaining()[0],
                ),
                _ => old(self).remaining as nat,
            }),
            match out {
                Poll::Ready(Some(item)) => {
                    &&& old(self).body.remaining().len() > 0
                    &&& item == limited_item(
                        old(self).remaining as nat,
                        old(self).body.remaining()[0],
                    )
                    &&& final(self).body.remaining() == old(self).body.remaining().skip(1)
                    &&& final(self).body.pullable()
                },
                Poll::Ready(None) => old(self).body.remaining().len() == 0 && !final(self).body.pullable(),
                Poll::Pending => final(self).body.remaining() == old(self).body.remaining()
                    && final(self).body.pullable(),
            },
    {
        let polled = self.body.poll_frame(cx);
        self.polled(polled)
    }

    fn size_hint(&self) -> (hint: SizeHint) {
        let n = self.remaining as u64;
        let mut hint = self.body.size_hint();
        if hint.lower() >= n {
            hint.set_exact(n)
        } else if let Some(max) = hint.upper() {
            hint.set_upper(n.min(max))
        } else {
            hint.set_upper(n)
        }
        hint
    }
}

} // verus!
