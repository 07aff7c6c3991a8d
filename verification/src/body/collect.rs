//! Draining a body to its end, and replaying what was collected.

use crate::body::buf_list::{lemma_bytes_of_chunks, BufList};
use crate::body::frame::Frame;
use crate::body::size_hint::SizeHint;
use crate::body::trailers::{
    extend_trailers, header_entries, merged_entries, trailer_names, trailers_are_empty,
    MAX_TRAILER_NAMES,
};
use crate::body::{Body, Pulled};
use crate::task::{Operation, Poll};
use core::convert::Infallible;
use core::task::Context;
use http::header::HeaderMap;
use vstd::prelude::*;

verus! {

/// What a collected body holds, as plain values: the contents of the data
/// chunks in the order they came, and the trailers that were merged so far,
/// if a trailers frame came at all.
pub struct CollectedView {
    pub chunks: Seq<Seq<u8>>,
    pub trailers: Option<Map<Seq<u8>, Seq<Seq<u8>>>>,
}

impl CollectedView {
    /// Nothing collected yet.
    pub open spec fn empty() -> Self {
        CollectedView { chunks: Seq::empty(), trailers: None }
    }

    /// The content: all chunks as one run of bytes.
    pub open spec fn content(self) -> Seq<u8> {
        self.chunks.flatten()
    }

    /// The trailer map: what was merged, or the empty map where no trailers
    /// came.
    pub open spec fn trailer_entries(self) -> Map<Seq<u8>, Seq<Seq<u8>>> {
        match self.trailers {
            Some(entries) => entries,
            None => Map::empty(),
        }
    }

    /// Whether `frame` can be taken in: a chunk must leave the content
    /// within `usize`, and trailers that are merged into earlier ones must
    /// leave the names within what the map can hold.
    pub open spec fn takes(self, frame: Frame) -> bool {
        match frame {
            Frame::Data(buf) => self.content().len() + buf@.len() <= usize::MAX,
            Frame::Trailers(map) => self.trailers matches Some(entries) ==> entries.dom().len()
                + header_entries(map).dom().len() <= MAX_TRAILER_NAMES,
        }
    }

    /// What is held after `frame` was taken in. A chunk is appended. The
    /// first trailers are kept as they are; later ones are merged into
    /// them, a name that comes again taking its new values.
    pub open spec fn push(self, frame: Frame) -> Self {
        match frame {
            Frame::Data(buf) => CollectedView { chunks: self.chunks.push(buf@), ..self },
            Frame::Trailers(map) => CollectedView {
                trailers: Some(
                    match self.trailers {
                        Some(entries) => merged_entries(entries, header_entries(map)),
                        None => header_entries(map),
                    },
                ),
                ..self
            },
        }
    }

    /// Whether every frame of `frames` before the first failure can be
    /// taken in, one after the other.
    pub open spec fn takes_all<E>(self, frames: Seq<Result<Frame, E>>) -> bool
        decreases frames.len(),
    {
        if frames.len() == 0 {
            true
        } else {
            match frames[0] {
                Ok(frame) => self.takes(frame) && self.push(frame).takes_all(frames.skip(1)),
                Err(_) => true,
            }
        }
    }

    /// What is held after the frames of `frames` before the first failure
    /// were taken in, one after the other.
    pub open spec fn push_all<E>(self, frames: Seq<Result<Frame, E>>) -> Self
        decreases frames.len(),
    {
        if frames.len() == 0 {
            self
        } else {
            match frames[0] {
                Ok(frame) => self.push(frame).push_all(frames.skip(1)),
                Err(_) => self,
            }
        }
    }
}

/// The first failure among `frames`, if there is one.
pub open spec fn first_error<E>(frames: Seq<Result<Frame, E>>) -> Option<E>
    decreases frames.len(),
{
    if frames.len() == 0 {
        None
    } else {
        match frames[0] {
            Ok(_) => first_error(frames.skip(1)),
            Err(e) => Some(e),
        }
    }
}

/// A body drained to its end: its chunks, kept apart and in order, and its
/// merged trailers. It can be replayed as a body once.
#[derive(Debug)]
pub struct Collected {
    bufs: BufList,
    trailers: Option<HeaderMap>,
    ended: bool,
}

impl View for Collected {
    type V = CollectedView;

    open spec fn view(&self) -> CollectedView {
        CollectedView {
            chunks: self.chunks().map_values(|buf: Vec<u8>| buf@),
            trailers: match self.held_trailers() {
                Some(map) => Some(header_entries(map)),
                None => None,
            },
        }
    }
}

impl Collected {
    /// The chunks that are held, first to last.
    pub closed spec fn chunks(&self) -> Seq<Vec<u8>> {
        self.bufs.bufs()
    }

    /// The trailers that are held.
    pub closed spec fn held_trailers(&self) -> Option<HeaderMap> {
        self.trailers
    }

    /// Whether the replay has signalled its end.
    pub closed spec fn ended(&self) -> bool {
        self.ended
    }

    /// Whether the content fits in `usize`. It does for every value made by
    /// the functions of this module.
    pub closed spec fn wf(&self) -> bool {
        self.bufs.wf()
    }

    /// States what `wf` means in terms of the view.
    pub proof fn lemma_wf(&self)
        ensures
            self.wf() == (self@.content().len() <= usize::MAX),
    {
    }

    /// The frames of a replay: one data frame per chunk, then one trailers
    /// frame if the trailer map is not empty.
    pub open spec fn frames(&self) -> Seq<Result<Frame, Infallible>> {
        self.chunks().map_values(|buf: Vec<u8>| Ok::<Frame, Infallible>(Frame::Data(buf)))
            + self.trailer_frames()
    }

    /// The trailers frame of a replay, or nothing where no name is held.
    pub open spec fn trailer_frames(&self) -> Seq<Result<Frame, Infallible>> {
        match self.held_trailers() {
            Some(map) => if header_entries(map).dom() == Set::<Seq<u8>>::empty() {
                Seq::empty()
            } else {
                seq![Ok::<Frame, Infallible>(Frame::Trailers(map))]
            },
            None => Seq::empty(),
        }
    }

    /// The buffer list of the chunks, to be read without copying.
    pub fn aggregate(self) -> (list: BufList)
        requires
            self.wf(),
        ensures
            list.wf(),
            list.bufs() == self.chunks(),
    {
        self.bufs
    }

    /// The whole content copied into one buffer.
    pub fn to_bytes(self) -> (bytes: Vec<u8>)
        requires
            self.wf(),
        ensures
            bytes@ == self@.content(),
    {
        let mut bufs = self.bufs;
        let n = bufs.remaining();
        let bytes = bufs.copy_to_bytes(n);
        proof {
            assert(self@.content().take(n as int) =~= self@.content());
        }
        bytes
    }

    /// The merged trailers, if a trailers frame was collected.
    pub fn trailers(&self) -> (trailers: Option<&HeaderMap>)
        ensures
            match trailers {
                Some(map) => self.held_trailers() == Some(*map),
                None => self.held_trailers() is None,
            },
    {
        self.trailers.as_ref()
    }

    /// Takes one frame in: a chunk is appended to the chunks, trailers are
    /// kept, or merged into the trailers that are already there.
    pub fn push_frame(&mut self, frame: Frame)
        requires
            old(self).wf(),
            old(self)@.takes(frame),
        ensures
            final(self).wf(),
            final(self)@ == old(self)@.push(frame),
            final(self).ended() == old(self).ended(),
            frame matches Frame::Data(buf) ==> final(self).chunks() == old(self).chunks().push(buf)
                && final(self).held_trailers() == old(self).held_trailers(),
            frame is Trailers ==> final(self).chunks() == old(self).chunks(),
    {
        let frame = match frame.into_data() {
            Ok(data) => {
                proof {
                    assert(old(self).chunks().push(data).map_values(|buf: Vec<u8>| buf@)
                        =~= old(self)@.chunks.push(data@));
                }
                self.bufs.push(data);
                return ;
            },
            Err(frame) => frame,
        };
        if let Ok(trailers) = frame.into_trailers() {
            if let Some(cur) = &mut self.trailers {
                extend_trailers(cur, trailers);
            } else {
                self.trailers = Some(trailers);
            }
        }
    }
}

impl Collected {
    /// Takes `frame` in if it can be taken, and hands it back unchanged if
    /// it cannot: a chunk that would carry the content past `usize`, or
    /// trailers that would carry the merged names past what the map can
    /// hold. Nothing changes in that case.
    pub fn try_push_frame(&mut self, frame: Frame) -> (refused: Option<Frame>)
        requires
            old(self).wf(),
        ensures
            final(self).wf(),
            final(self).ended() == old(self).ended(),
            old(self)@.takes(frame) ==> refused is None && final(self)@ == old(self)@.push(frame),
            !old(self)@.takes(frame) ==> refused == Some(frame) && final(self)@ == old(self)@
                && final(self).chunks() == old(self).chunks() && final(self).held_trailers()
                == old(self).held_trailers(),
    {
        let fits = match &frame {
            Frame::Data(buf) => buf.len() <= usize::MAX - self.bufs.remaining(),
            Frame::Trailers(map) => match &self.trailers {
                Some(cur) => {
                    let held = trailer_names(cur);
                    held <= MAX_TRAILER_NAMES && trailer_names(map) <= MAX_TRAILER_NAMES - held
                },
                None => true,
            },
        };
        if fits {
            self.push_frame(frame);
            None
        } else {
            Some(frame)
        }
    }
}

impl Default for Collected {
    fn default() -> (collected: Self)
        ensures
            collected.wf(),
            collected@ == CollectedView::empty(),
            !collected.ended(),
    {
        let collected = Collected { bufs: BufList::default(), trailers: None, ended: false };
        assert(collected@.chunks =~= Seq::<Seq<u8>>::empty());
        collected
    }
}

impl Body for Collected {
    type Error = Infallible;

    open spec fn remaining(&self) -> Seq<Result<Frame, Infallible>> {
        self.frames()
    }

    open spec fn pullable(&self) -> bool {
        self.wf() && !self.ended()
    }

    open spec fn hint(&self) -> (u64, Option<u64>) {
        (0, None)
    }

    open spec fn waits(&self, i: nat) -> nat {
        0
    }

    /// Hands out the next chunk as a data frame; after the last chunk the
    /// trailers, as one frame, if there are any; then the end.
    fn poll_frame(&mut self, cx: &mut Context<'_>) -> (out: Pulled<Infallible>)
        ensures
            out is Ready,
            final(self).ended() == (out matches Poll::Ready(None)),
    {
        let ghost before = self.frames();
        let ghost chunks = self.chunks();
        if let Some(data) = self.bufs.pop() {
            proof {
                assert(self.chunks().map_values(
                    |buf: Vec<u8>| Ok::<Frame, Infallible>(Frame::Data(buf)),
                ) =~= chunks.map_values(
                    |buf: Vec<u8>| Ok::<Frame, Infallible>(Frame::Data(buf)),
                ).skip(1));
                assert(self.frames() =~= before.skip(1));
            }
            return Poll::Ready(Some(Ok(Frame::data(data))));
        }
        proof {
            assert(chunks.map_values(|buf: Vec<u8>| Ok::<Frame, Infallible>(Frame::Data(buf)))
                =~= Seq::empty());
            assert(before =~= self.trailer_frames());
        }
        if let Some(trailers) = self.trailers.take() {
            if !trailers_are_empty(&trailers) {
                proof {
                    assert(self.frames() =~= before.skip(1));
                }
                return Poll::Ready(Some(Ok(Frame::trailers(trailers))));
            }
        }
        self.ended = true;
        proof {
            assert(self.frames() =~= Seq::empty());
        }
        Poll::Ready(None)
    }

    fn size_hint(&self) -> (hint: SizeHint) {
        SizeHint::default()
    }
}

/// The operation that drains a body and resolves to what it collected, or
/// to the first failure of the body.
pub struct Collect<B> {
    pub collected: Option<Collected>,
    pub body: B,
}

impl<B> Collect<B> {
    /// Starts with nothing collected.
    pub fn new(body: B) -> (collect: Self)
        ensures
            collect.body == body,
            collect.collected matches Some(collected) && collected.wf() && !collected.ended()
                && collected@ == CollectedView::empty(),
    {
        Self { collected: Some(Collected::default()), body }
    }
}

impl<B: Body> Collect<B> {
    /// Takes what a pull of the body gave. `Pending` and the first failure
    /// are handed on; a failure drops what was collected. The end of the
    /// body resolves the operation to what was collected. A frame is taken
    /// in, and `None` tells the caller to pull the body again.
    pub fn polled(&mut self, polled: Pulled<B::Error>) -> (out: Option<
        Poll<Result<Collected, B::Error>>,
    >)
        requires
            old(self).collected matches Some(collected) && collected.wf() && (polled matches Poll::Ready(
                Some(Ok(frame)),
            ) ==> collected@.takes(frame)),
        ensures
            final(self).body == old(self).body,
            match polled {
                Poll::Pending => out == Some(Poll::<Result<Collected, B::Error>>::Pending)
                    && final(self).collected == old(self).collected,
                Poll::Ready(None) => out == Some(
                    Poll::Ready(Ok::<Collected, B::Error>(old(self).collected->Some_0)),
                ) && final(self).collected is None,
                Poll::Ready(Some(Err(e))) => out == Some(
                    Poll::Ready(Err::<Collected, B::Error>(e)),
                ) && final(self).collected is None,
                Poll::Ready(Some(Ok(frame))) => {
                    &&& out is None
                    &&& final(self).collected matches Some(collected)
                    &&& collected.wf()
                    &&& collected.ended() == (old(self).collected->Some_0).ended()
                    &&& collected@ == (old(self).collected->Some_0)@.push(frame)
                },
            },
    {
        match polled {
            Poll::Pending => Some(Poll::Pending),
            Poll::Ready(None) => {
                let collected = self.collected.take().unwrap();
                Some(Poll::Ready(Ok(collected)))
            },
            Poll::Ready(Some(Err(e))) => {
                self.collected = None;
                Some(Poll::Ready(Err(e)))
            },
            Poll::Ready(Some(Ok(frame))) => {
                if let Some(collected) = &mut self.collected {
                    collected.push_frame(frame);
                }
                None
            },
        }
    }
}

impl<B: Body> Operation for Collect<B> {
    type Output = Result<Collected, B::Error>;

    open spec fn pollable(&self) -> bool {
        &&& self.body.pullable()
        &&& self.collected matches Some(collected)
        &&& collected.wf()
        &&& !collected.ended()
        &&& collected@.takes_all(self.body.remaining())
    }

    open spec fn admits(&self, out: Result<Collected, B::Error>) -> bool {
        self.collected matches Some(collected) && match first_error(self.body.remaining()) {
            Some(e) => out == Err::<Collected, B::Error>(e),
            None => out matches Ok(all) && all.wf() && !all.ended() && all@
                == collected@.push_all(self.body.remaining()),
        }
    }

    open spec fn stalls(&self) -> bool {
        waits_ahead(self.body, 0)
    }

    open spec fn may_stall(&self) -> bool {
        waits_ahead(self.body, 0)
    }

    /// Pulls the body until it has to wait, fails or ends, and takes every
    /// frame in. The pull is pending exactly when the body has a wait
    /// before its end or its first failure; the frames before that wait
    /// are taken in, and the body is left at the wait. A resolved operation
    /// holds nothing any more.
    fn poll(&mut self, cx: &mut Context<'_>) -> (out: Poll<Result<Collected, B::Error>>)
        ensures
            (out is Pending) == waits_ahead(old(self).body, 0),
            (out is Ready) == (final(self).collected is None),
            out is Pending ==> {
                let taken = first_wait(old(self).body, 0);
                &&& final(self).body.remaining() == old(self).body.remaining().skip(taken as int)
                &&& final(self).collected matches Some(now)
                &&& now@ == (old(self).collected->Some_0)@.push_all(
                    old(self).body.remaining().take(taken as int),
                )
            },
    {
        let ghost start = (self.collected->Some_0)@;
        let ghost taken: nat = 0;
        proof {
            assert(old(self).body.remaining().take(0) =~= Seq::empty());
            assert(old(self).body.remaining().skip(0) =~= old(self).body.remaining());
        }
        loop
            invariant
                self.pollable(),
                forall|out: Result<Collected, B::Error>|
                    self.admits(out) ==> old(self).admits(out),
                old(self).collected matches Some(first) && first@ == start,
                taken <= old(self).body.remaining().len(),
                self.body.remaining() == old(self).body.remaining().skip(taken as int),
                forall|i: nat| self.body.waits(i) == old(self).body.waits(i + taken),
                forall|i: int|
                    0 <= i < taken ==> old(self).body.waits(i as nat) == 0 && old(self).body.remaining()[i] is Ok,
                first_error(old(self).body.remaining().take(taken as int)) is None,
                (self.collected->Some_0)@ == start.push_all(
                    old(self).body.remaining().take(taken as int),
                ),
            decreases self.body.remaining().len(),
        {
            let ghost before = self.body;
            let polled = self.body.poll_frame(cx);
            proof {
                lemma_walk(old(self).body, 0, taken);
                if polled is Ready && polled->Ready_0 is Some && polled->Ready_0->Some_0 is Ok {
                    let frames = old(self).body.remaining();
                    assert(frames.take(taken as int + 1) =~= frames.take(taken as int).push(
                        frames[taken as int],
                    ));
                    lemma_push_all_one(start, frames.take(taken as int), frames[taken as int]);
                    assert(frames.skip(taken as int).skip(1) =~= frames.skip(taken as int + 1));
                    assert forall|i: nat| self.body.waits(i) == old(self).body.waits(
                        i + taken + 1,
                    ) by {
                        assert(self.body.waits(i) == before.waits(i + 1));
                    }
                }
            }
            if let Some(out) = self.polled(polled) {
                return out;
            }
            proof {
                taken = taken + 1;
            }
        }
    }
}

/// Whether a body has a wait before it ends or fails, looking from the
/// `from`-th item that it has left.
pub open spec fn waits_ahead<B: Body>(body: B, from: nat) -> bool
    decreases body.remaining().len() - from,
{
    if body.waits(from) > 0 {
        true
    } else if from >= body.remaining().len() {
        false
    } else if body.remaining()[from as int] is Err {
        false
    } else {
        waits_ahead(body, from + 1)
    }
}

/// The number of items that a body hands out before its first wait, looking
/// from the `from`-th item that it has left; where there is no wait before
/// the end or a failure, the place of that end or failure.
pub open spec fn first_wait<B: Body>(body: B, from: nat) -> nat
    decreases body.remaining().len() - from,
{
    if body.waits(from) > 0 {
        from
    } else if from >= body.remaining().len() {
        from
    } else if body.remaining()[from as int] is Err {
        from
    } else {
        first_wait(body, from + 1)
    }
}

/// Looking ahead from `from` is looking ahead from `to`, where no item
/// between them has a wait before it or is a failure.
pub proof fn lemma_walk<B: Body>(body: B, from: nat, to: nat)
    requires
        from <= to <= body.remaining().len(),
        forall|i: int| from <= i < to ==> body.waits(i as nat) == 0 && body.remaining()[i] is Ok,
    ensures
        waits_ahead(body, from) == waits_ahead(body, to),
        first_wait(body, from) == first_wait(body, to),
    decreases to - from,
{
    if from < to {
        assert(body.waits(from) == 0 && body.remaining()[from as int] is Ok);
        lemma_walk(body, from + 1, to);
    }
}

/// Taking in frames and then one more is taking in all of them.
pub proof fn lemma_push_all_one<E>(
    start: CollectedView,
    frames: Seq<Result<Frame, E>>,
    last: Result<Frame, E>,
)
    requires
        first_error(frames) is None,
        last is Ok,
    ensures
        start.push_all(frames.push(last)) == start.push_all(frames).push(last->Ok_0),
        first_error(frames.push(last)) is None,
    decreases frames.len(),
{
    let all = frames.push(last);
    if frames.len() == 0 {
        assert(all.skip(1) =~= Seq::<Result<Frame, E>>::empty());
        assert(start.push(last->Ok_0).push_all(all.skip(1)) == start.push(last->Ok_0));
        assert(first_error(all.skip(1)) is None);
    } else {
        assert(all[0] == frames[0]);
        assert(all.skip(1) =~= frames.skip(1).push(last));
        lemma_push_all_one(start.push(frames[0]->Ok_0), frames.skip(1), last);
    }
}

/// The frames of a replay of the chunks `chunks`, followed by `tail`.
pub open spec fn replay_frames(chunks: Seq<Vec<u8>>, tail: Seq<Result<Frame, Infallible>>) -> Seq<
    Result<Frame, Infallible>,
> {
    chunks.map_values(|buf: Vec<u8>| Ok::<Frame, Infallible>(Frame::Data(buf))) + tail
}

/// What `start` holds once the chunks `chunks` were appended to it.
pub open spec fn with_chunks(start: CollectedView, chunks: Seq<Vec<u8>>) -> CollectedView {
    CollectedView { chunks: start.chunks + chunks.map_values(|buf: Vec<u8>| buf@), ..start }
}

/// Taking in a replay of chunks and then `tail` is appending the chunks and
/// then taking in `tail`, as long as the content stays within `usize`.
pub proof fn lemma_replay_chunks(
    start: CollectedView,
    chunks: Seq<Vec<u8>>,
    tail: Seq<Result<Frame, Infallible>>,
)
    requires
        with_chunks(start, chunks).content().len() <= usize::MAX,
    ensures
        first_error(replay_frames(chunks, tail)) == first_error(tail),
        start.takes_all(replay_frames(chunks, tail)) == with_chunks(start, chunks).takes_all(tail),
        start.push_all(replay_frames(chunks, tail)) == with_chunks(start, chunks).push_all(tail),
    decreases chunks.len(),
{
    let frames = replay_frames(chunks, tail);
    if chunks.len() == 0 {
        assert(frames =~= tail);
        assert(with_chunks(start, chunks).chunks =~= start.chunks);
    } else {
        let first = chunks[0];
        let rest = chunks.skip(1);
        let next = start.push(Frame::Data(first));
        assert(frames[0] == Ok::<Frame, Infallible>(Frame::Data(first)));
        assert(frames.skip(1) =~= replay_frames(rest, tail));
        assert(with_chunks(next, rest).chunks =~= with_chunks(start, chunks).chunks);
        assert(with_chunks(next, rest) == with_chunks(start, chunks));
        let views = chunks.map_values(|buf: Vec<u8>| buf@);
        assert(with_chunks(start, chunks).chunks =~= start.chunks.push(first@) + views.skip(1));
        vstd::seq_lib::lemma_flatten_concat(start.chunks.push(first@), views.skip(1));
        vstd::seq_lib::lemma_flatten_concat(start.chunks, seq![first@]);
        assert(start.chunks.push(first@) =~= start.chunks + seq![first@]);
        seq![first@].lemma_flatten_one_element();
        assert(start.takes(Frame::Data(first)));
        lemma_replay_chunks(next, rest, tail);
    }
}

/// Collecting is idempotent in content: when what was collected is replayed
/// as a body and collected again from nothing, every frame of the replay
/// can be taken in, none fails, and the second collection holds the same
/// content bytes and an equal trailer map.
pub proof fn lemma_collect_replay(collected: Collected)
    requires
        collected.wf(),
    ensures
        first_error(collected.remaining()) is None,
        CollectedView::empty().takes_all(collected.remaining()),
        CollectedView::empty().push_all(collected.remaining()).content() == collected@.content(),
        CollectedView::empty().push_all(collected.remaining()).trailer_entries()
            == collected@.trailer_entries(),
{
    collected.lemma_wf();
    let chunks = collected.chunks();
    let tail = collected.trailer_frames();
    let start = CollectedView::empty();
    assert(with_chunks(start, chunks).chunks =~= collected@.chunks);
    lemma_replay_chunks(start, chunks, tail);
    assert(collected.remaining() == replay_frames(chunks, tail));
    let filled = with_chunks(start, chunks);
    if tail.len() == 0 {
        assert(filled.trailer_entries() =~= collected@.trailer_entries());
        assert(first_error(tail) is None);
    } else {
        assert(tail.skip(1) =~= Seq::<Result<Frame, Infallible>>::empty());
        assert(first_error(tail.skip(1)) is None);
        assert(first_error(tail) == first_error(tail.skip(1)));
        let after = filled.push(tail[0]->Ok_0);
        assert(filled.push_all(tail) == after.push_all(tail.skip(1)));
        assert(filled.takes_all(tail) == (filled.takes(tail[0]->Ok_0) && after.takes_all(
            tail.skip(1),
        )));
    }
}

} // verus!
