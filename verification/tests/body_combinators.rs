use std::collections::VecDeque;
use std::convert::Infallible;
use std::task::{Context, Waker};

use echo_core::body::boxed::{box_polled, BoxBody};
use echo_core::body::boxed_local::LocalBoxBody;
use echo_core::body::collect::{Collect, Collected};
use echo_core::body::empty::Empty;
use echo_core::body::ext::BodyExt;
use echo_core::body::frame::Frame;
use echo_core::body::full::Full;
use echo_core::body::limited::Limited;
use echo_core::body::map_err::MapErr;
use echo_core::body::next::Next;
use echo_core::body::size_hint::SizeHint;
use echo_core::body::stream::{BodyStream, Items, Stream, StreamBody};
use echo_core::body::{Body, Count, Frames, Pulled};
use echo_core::error::BoxError;
use echo_core::task::{Operation, Poll};
use http::header::{HeaderMap, HeaderValue};

/// One pull of a scripted body.
enum Step {
    Wait,
    Item(Result<Frame, String>),
}

/// A body that plays a script, then ends.
struct Script {
    steps: VecDeque<Step>,
    hint: SizeHint,
}

fn script(steps: Vec<Step>) -> Script {
    Script { steps: steps.into(), hint: SizeHint::new() }
}

fn chunks(chunks: &[&[u8]]) -> Script {
    script(chunks.iter().map(|c| Step::Item(Ok(Frame::data(c.to_vec())))).collect())
}

fn data(bytes: &[u8]) -> Step {
    Step::Item(Ok(Frame::data(bytes.to_vec())))
}

fn trailers(pairs: &[(&'static str, &'static str)]) -> HeaderMap {
    let mut map = HeaderMap::new();
    for (name, value) in pairs {
        map.append(*name, HeaderValue::from_static(value));
    }
    map
}

impl Body for Script {
    type Error = String;

    fn remaining(&self) -> Frames<String> {
        unreachable!()
    }

    fn pullable(&self) -> bool {
        unreachable!()
    }

    fn hint(&self) -> (u64, Option<u64>) {
        unreachable!()
    }

    fn waits(&self, _i: Count) -> Count {
        unreachable!()
    }

    fn poll_frame(&mut self, _cx: &mut Context<'_>) -> Pulled<String> {
        match self.steps.pop_front() {
            Some(Step::Wait) => Poll::Pending,
            Some(Step::Item(item)) => Poll::Ready(Some(item)),
            None => Poll::Ready(None),
        }
    }

    fn size_hint(&self) -> SizeHint {
        self.hint
    }
}

/// A lazy sequence made of a list.
struct Listed<T> {
    items: VecDeque<T>,
}

impl<T> Stream for Listed<T> {
    type Item = T;

    fn items(&self) -> Items<T> {
        unreachable!()
    }

    fn pollable(&self) -> bool {
        unreachable!()
    }

    fn bounds(&self) -> (usize, Option<usize>) {
        unreachable!()
    }

    fn waits(&self, _i: Count) -> Count {
        unreachable!()
    }

    fn poll_next(&mut self, _cx: &mut Context<'_>) -> Poll<Option<T>> {
        Poll::Ready(self.items.pop_front())
    }

    fn size_hint(&self) -> (usize, Option<usize>) {
        (self.items.len(), Some(self.items.len()))
    }
}

fn cx() -> Context<'static> {
    Context::from_waker(Waker::noop())
}

fn collect_now<B: Body>(body: B) -> Result<Collected, B::Error> {
    match Collect::new(body).poll(&mut cx()) {
        Poll::Ready(out) => out,
        Poll::Pending => panic!("the body was not ready"),
    }
}

fn pull<B: Body>(body: &mut B) -> Option<Result<Frame, B::Error>> {
    match body.poll_frame(&mut cx()) {
        Poll::Ready(out) => out,
        Poll::Pending => panic!("the body was not ready"),
    }
}

fn data_of<E: std::fmt::Debug>(item: Option<Result<Frame, E>>) -> Vec<u8> {
    match item {
        Some(Ok(Frame::Data(bytes))) => bytes,
        other => panic!("no data frame: {other:?}"),
    }
}

#[test]
fn collect_gathers_chunks_and_trailers() {
    let body = script(vec![data(b"ab"), data(b"cde"), Step::Item(Ok(Frame::trailers(trailers(&[("x", "1")]))))]);
    let collected = collect_now(body).unwrap();
    assert_eq!(collected.trailers(), Some(&trailers(&[("x", "1")])));
    assert_eq!(collected.to_bytes(), b"abcde".to_vec());
}

#[test]
fn collect_of_an_empty_body_holds_nothing() {
    let collected = collect_now(chunks(&[])).unwrap();
    assert!(collected.trailers().is_none());
    assert_eq!(collected.to_bytes(), Vec::<u8>::new());
}

#[test]
fn collect_waits_while_the_body_is_pending() {
    let mut collect = Collect::new(script(vec![data(b"ab"), Step::Wait, Step::Wait, data(b"c")]));
    assert!(collect.poll(&mut cx()).is_pending());
    assert!(collect.poll(&mut cx()).is_pending());
    match collect.poll(&mut cx()) {
        Poll::Ready(Ok(collected)) => assert_eq!(collected.to_bytes(), b"abc".to_vec()),
        _ => panic!("the body should have ended"),
    }
    assert!(collect.collected.is_none());
}

#[test]
fn collect_stops_at_the_first_failure() {
    let body = script(vec![data(b"ab"), Step::Item(Err("broken".to_string())), data(b"c")]);
    let mut collect = Collect::new(body);
    match collect.poll(&mut cx()) {
        Poll::Ready(Err(e)) => assert_eq!(e, "broken"),
        _ => panic!("the body should have failed"),
    }
    assert!(collect.collected.is_none());
    assert_eq!(collect.body.steps.len(), 1);
}

#[test]
fn collect_keeps_the_chunks_apart() {
    let collected = collect_now(chunks(&[b"ab", b"", b"cde"])).unwrap();
    let mut list = collected.aggregate();
    assert_eq!(list.len(), 3);
    assert_eq!(list.remaining(), 5);
    assert_eq!(list.pop(), Some(b"ab".to_vec()));
    assert_eq!(list.pop(), Some(Vec::new()));
    assert_eq!(list.pop(), Some(b"cde".to_vec()));
}

#[test]
fn later_trailers_extend_earlier_ones() {
    let mut collected = Collected::default();
    collected.push_frame(Frame::trailers(trailers(&[("a", "1"), ("b", "2")])));
    collected.push_frame(Frame::data(b"x".to_vec()));
    collected.push_frame(Frame::trailers(trailers(&[("c", "3")])));
    assert_eq!(collected.trailers(), Some(&trailers(&[("a", "1"), ("b", "2"), ("c", "3")])));
    assert_eq!(collected.to_bytes(), b"x".to_vec());
}

#[test]
fn later_trailers_overwrite_a_name_that_comes_again() {
    let mut collected = Collected::default();
    collected.push_frame(Frame::trailers(trailers(&[("a", "1"), ("a", "old"), ("b", "2")])));
    collected.push_frame(Frame::trailers(trailers(&[("a", "new"), ("a", "newer")])));
    assert_eq!(collected.trailers(), Some(&trailers(&[("a", "new"), ("a", "newer"), ("b", "2")])));
}

#[test]
fn try_push_frame_takes_what_fits() {
    let mut collected = Collected::default();
    assert!(collected.try_push_frame(Frame::data(b"ab".to_vec())).is_none());
    assert!(collected.try_push_frame(Frame::trailers(trailers(&[("a", "1")]))).is_none());
    assert!(collected.try_push_frame(Frame::trailers(trailers(&[("b", "2")]))).is_none());
    assert_eq!(collected.trailers(), Some(&trailers(&[("a", "1"), ("b", "2")])));
    assert_eq!(collected.to_bytes(), b"ab".to_vec());
}

#[test]
fn try_push_frame_hands_back_trailers_with_too_many_names() {
    let mut first = HeaderMap::new();
    for i in 0..6000 {
        first.insert(http::header::HeaderName::try_from(format!("a{i}")).unwrap(), HeaderValue::from_static("1"));
    }
    let mut second = HeaderMap::new();
    for i in 0..600 {
        second.insert(http::header::HeaderName::try_from(format!("b{i}")).unwrap(), HeaderValue::from_static("2"));
    }
    let mut collected = Collected::default();
    assert!(collected.try_push_frame(Frame::trailers(first.clone())).is_none());
    match collected.try_push_frame(Frame::trailers(second.clone())) {
        Some(Frame::Trailers(back)) => assert_eq!(back, second),
        _ => panic!("the trailers should have been refused"),
    }
    assert_eq!(collected.trailers(), Some(&first));
    let mut few = HeaderMap::new();
    for i in 0..553 {
        few.insert(http::header::HeaderName::try_from(format!("c{i}")).unwrap(), HeaderValue::from_static("3"));
    }
    assert!(collected.try_push_frame(Frame::trailers(few)).is_none());
    assert_eq!(collected.trailers().unwrap().keys_len(), 6553);
}

#[test]
fn collected_replays_chunks_then_trailers_then_the_end() {
    let body = script(vec![data(b"ab"), data(b"cde"), Step::Item(Ok(Frame::trailers(trailers(&[("x", "1")]))))]);
    let mut collected = collect_now(body).unwrap();
    assert_eq!(data_of(pull(&mut collected)), b"ab");
    assert_eq!(data_of(pull(&mut collected)), b"cde");
    match pull(&mut collected) {
        Some(Ok(Frame::Trailers(map))) => assert_eq!(map, trailers(&[("x", "1")])),
        _ => panic!("the trailers should have come"),
    }
    assert!(pull(&mut collected).is_none());
    assert!(collected.trailers().is_none());
}

#[test]
fn collected_replays_no_trailers_frame_for_an_empty_map() {
    let mut collected = Collected::default();
    collected.push_frame(Frame::data(b"ab".to_vec()));
    collected.push_frame(Frame::trailers(HeaderMap::new()));
    assert_eq!(collected.trailers(), Some(&HeaderMap::new()));
    assert_eq!(data_of(pull(&mut collected)), b"ab");
    assert!(pull(&mut collected).is_none());
}

#[test]
fn collecting_a_replay_gives_the_same_content_and_trailers() {
    let body = script(vec![
        data(b"ab"),
        Step::Item(Ok(Frame::trailers(trailers(&[("x", "1")])))),
        data(b"cde"),
        Step::Item(Ok(Frame::trailers(trailers(&[("y", "2"), ("x", "3")])))),
    ]);
    let first = collect_now(body).unwrap();
    let expected = trailers(&[("x", "3"), ("y", "2")]);
    assert_eq!(first.trailers(), Some(&expected));
    let second = match collect_now(first) {
        Ok(collected) => collected,
        Err(never) => match never {},
    };
    assert_eq!(second.trailers(), Some(&expected));
    assert_eq!(second.to_bytes(), b"abcde".to_vec());
}

#[test]
fn collected_reports_no_size() {
    let collected = collect_now(chunks(&[b"ab"])).unwrap();
    let hint = collected.size_hint();
    assert_eq!((hint.lower(), hint.upper()), (0, None));
}

#[test]
fn limited_replaces_an_oversized_chunk_by_the_capacity_error() {
    let mut limited = Limited::new(chunks(&[b"abcde"]), 3);
    assert!(matches!(pull(&mut limited), Some(Err(BoxError::DataTooLarge))));
    assert_eq!(limited.remaining, 0);
}

#[test]
fn limited_lets_everything_through_within_the_budget() {
    let mut limited = Limited::new(chunks(&[b"ab", b"cde"]), 5);
    assert_eq!(data_of(pull(&mut limited)), b"ab");
    assert_eq!(limited.remaining, 3);
    assert_eq!(data_of(pull(&mut limited)), b"cde");
    assert_eq!(limited.remaining, 0);
    assert!(pull(&mut limited).is_none());
}

#[test]
fn limited_cuts_at_the_first_chunk_over_the_budget() {
    let mut limited = Limited::new(chunks(&[b"ab", b"cde", b"f", b""]), 4);
    assert_eq!(data_of(pull(&mut limited)), b"ab");
    assert_eq!(limited.remaining, 2);
    assert!(matches!(pull(&mut limited), Some(Err(BoxError::DataTooLarge))));
    assert_eq!(limited.remaining, 0);
    assert!(matches!(pull(&mut limited), Some(Err(BoxError::DataTooLarge))));
    assert_eq!(data_of(pull(&mut limited)), b"");
    assert!(pull(&mut limited).is_none());
}

#[test]
fn limited_lets_trailers_through_without_cost() {
    let body = script(vec![data(b"ab"), Step::Item(Ok(Frame::trailers(trailers(&[("x", "1")]))))]);
    let mut limited = Limited::new(body, 2);
    assert_eq!(data_of(pull(&mut limited)), b"ab");
    assert!(matches!(pull(&mut limited), Some(Ok(Frame::Trailers(_)))));
    assert_eq!(limited.remaining, 0);
}

#[test]
fn limited_converts_the_failures_of_the_body() {
    let body = script(vec![Step::Item(Err("broken".to_string()))]);
    let mut limited = Limited::new(body, 2);
    assert!(matches!(pull(&mut limited), Some(Err(BoxError::Other(m))) if m == "broken"));
    assert_eq!(limited.remaining, 2);
}

#[test]
fn limited_hands_pending_on() {
    let mut limited = Limited::new(script(vec![Step::Wait, data(b"a")]), 2);
    assert!(limited.poll_frame(&mut cx()).is_pending());
    assert_eq!(limited.remaining, 2);
    assert_eq!(data_of(pull(&mut limited)), b"a");
}

#[test]
fn limited_step_applies_the_budget() {
    let mut limited = Limited::new((), 3);
    assert!(matches!(limited.polled::<String>(Poll::Pending), Poll::Pending));
    assert!(matches!(limited.polled::<String>(Poll::Ready(None)), Poll::Ready(None)));
    assert_eq!(data_of::<BoxError>(match limited.polled::<String>(Poll::Ready(Some(Ok(Frame::data(b"abc".to_vec()))))) {
        Poll::Ready(out) => out,
        Poll::Pending => None,
    }), b"abc");
    assert_eq!(limited.remaining, 0);
    assert!(matches!(
        limited.polled::<String>(Poll::Ready(Some(Ok(Frame::data(b"a".to_vec()))))),
        Poll::Ready(Some(Err(BoxError::DataTooLarge)))
    ));
}

fn hinted(lower: u64, upper: Option<u64>) -> Script {
    let mut body = chunks(&[]);
    if let Some(upper) = upper {
        body.hint.set_upper(upper);
    }
    body.hint.set_lower(lower);
    body
}

fn hint_of(limited: &Limited<Script>) -> (u64, Option<u64>) {
    let hint = limited.size_hint();
    (hint.lower(), hint.upper())
}

#[test]
fn limited_hint_is_exact_where_the_lower_bound_reaches_the_budget() {
    assert_eq!(hint_of(&Limited::new(hinted(10, Some(20)), 5)), (5, Some(5)));
    assert_eq!(hint_of(&Limited::new(hinted(5, None), 5)), (5, Some(5)));
}

#[test]
fn limited_hint_takes_the_smaller_upper_bound() {
    assert_eq!(hint_of(&Limited::new(hinted(2, Some(20)), 5)), (2, Some(5)));
    assert_eq!(hint_of(&Limited::new(hinted(2, Some(4)), 5)), (2, Some(4)));
    assert_eq!(hint_of(&Limited::new(hinted(2, None), 5)), (2, Some(5)));
    assert_eq!(hint_of(&Limited::new(hinted(0, None), 0)), (0, Some(0)));
}

#[test]
fn map_err_maps_failures_and_leaves_frames() {
    let body = script(vec![data(b"ab"), Step::Item(Err("broken".to_string()))]);
    let mut mapped = MapErr::new(body, |e: String| e.len());
    assert_eq!(data_of(pull(&mut mapped)), b"ab");
    assert!(matches!(pull(&mut mapped), Some(Err(6))));
    assert!(pull(&mut mapped).is_none());
}

#[test]
fn map_err_gives_access_to_the_body() {
    let mut mapped = MapErr::new(chunks(&[b"ab"]), |e: String| e.len());
    assert_eq!(mapped.get_ref().steps.len(), 1);
    mapped.get_mut().steps.push_back(data(b"c"));
    assert_eq!(mapped.get_ref().steps.len(), 2);
    let hint = mapped.size_hint();
    assert_eq!((hint.lower(), hint.upper()), (0, None));
    assert_eq!(mapped.into_inner().steps.len(), 2);
}

#[test]
fn stream_body_emits_the_items_of_the_sequence() {
    let items: VecDeque<Result<Frame, String>> =
        vec![Ok(Frame::data(b"ab".to_vec())), Err("broken".to_string())].into();
    let mut body = StreamBody::new(Listed { items });
    assert_eq!(Stream::size_hint(&body), (2, Some(2)));
    let hint = Body::size_hint(&body);
    assert_eq!((hint.lower(), hint.upper()), (0, None));
    assert_eq!(data_of(pull(&mut body)), b"ab");
    assert!(matches!(pull(&mut body), Some(Err(e)) if e == "broken"));
    assert!(pull(&mut body).is_none());
}

#[test]
fn stream_body_is_a_sequence_too() {
    let mut body = StreamBody::new(Listed { items: vec![1u8, 2].into() });
    assert_eq!(body.poll_next(&mut cx()), Poll::Ready(Some(1)));
    assert_eq!(body.get_ref().items.len(), 1);
    body.get_mut().items.push_back(3);
    assert_eq!(body.poll_next(&mut cx()), Poll::Ready(Some(2)));
    assert_eq!(body.into_inner().items, VecDeque::from(vec![3u8]));
}

#[test]
fn body_stream_hands_out_the_frames_of_the_body() {
    let mut stream = BodyStream::new(script(vec![data(b"ab"), Step::Wait, Step::Item(Err("broken".to_string()))]));
    assert_eq!(Stream::size_hint(&stream), (0, None));
    assert_eq!(data_of(match stream.poll_next(&mut cx()) {
        Poll::Ready(item) => item,
        Poll::Pending => None,
    }), b"ab");
    assert!(stream.poll_next(&mut cx()).is_pending());
    assert!(matches!(stream.poll_next(&mut cx()), Poll::Ready(Some(Err(e))) if e == "broken"));
    assert!(matches!(stream.poll_next(&mut cx()), Poll::Ready(None)));
}

#[test]
fn body_stream_is_a_body_too() {
    let mut stream = BodyStream::new(hinted(1, Some(4)));
    let hint = Body::size_hint(&stream);
    assert_eq!((hint.lower(), hint.upper()), (1, Some(4)));
    stream.get_mut().steps.push_back(data(b"a"));
    assert_eq!(stream.get_ref().steps.len(), 1);
    assert_eq!(data_of(pull(&mut stream)), b"a");
    assert!(stream.into_inner().steps.is_empty());
}

#[test]
fn a_body_survives_the_round_trip_through_a_sequence() {
    let body = StreamBody::new(BodyStream::new(chunks(&[b"ab", b"cde"])));
    assert_eq!(collect_now(body).unwrap().to_bytes(), b"abcde".to_vec());
}

#[test]
fn next_pulls_exactly_one_frame() {
    let mut body = chunks(&[b"ab", b"cde"]);
    {
        let mut next = Next::new(&mut body);
        assert!(!next.done);
        assert_eq!(data_of(match next.poll(&mut cx()) {
            Poll::Ready(item) => item,
            Poll::Pending => None,
        }), b"ab");
        assert!(next.done);
    }
    assert_eq!(body.steps.len(), 1);
    assert_eq!(data_of(match body.next().poll(&mut cx()) {
        Poll::Ready(item) => item,
        Poll::Pending => None,
    }), b"cde");
    assert!(matches!(body.next().poll(&mut cx()), Poll::Ready(None)));
}

#[test]
fn next_waits_while_the_body_is_pending() {
    let mut body = script(vec![Step::Wait, data(b"a")]);
    let mut next = body.next();
    assert!(next.poll(&mut cx()).is_pending());
    assert!(!next.done);
    assert!(next.poll(&mut cx()).is_ready());
    assert!(next.done);
}

#[test]
fn empty_ends_at_once() {
    let mut body = Empty::new();
    let hint = body.size_hint();
    assert_eq!((hint.lower(), hint.upper()), (0, Some(0)));
    assert!(!body.ended);
    assert!(pull(&mut body).is_none());
    assert!(body.ended);
    assert!(!Empty::default().ended);
}

#[test]
fn box_body_emits_the_frames_of_the_body_it_holds() {
    let mut boxed = BoxBody::new(script(vec![data(b"ab"), Step::Wait, Step::Item(Err("broken".to_string()))]));
    assert_eq!(data_of(pull(&mut boxed)), b"ab");
    assert!(boxed.poll_frame(&mut cx()).is_pending());
    assert!(matches!(pull(&mut boxed), Some(Err(BoxError::Other(m))) if m == "broken"));
    assert!(pull(&mut boxed).is_none());
}

#[test]
fn box_body_reports_the_hint_of_the_body_it_holds() {
    let boxed = BoxBody::new(hinted(2, Some(9)));
    let hint = boxed.size_hint();
    assert_eq!((hint.lower(), hint.upper()), (2, Some(9)));
    let local = LocalBoxBody::new(hinted(3, None));
    let hint = local.size_hint();
    assert_eq!((hint.lower(), hint.upper()), (3, None));
}

#[test]
fn box_body_is_empty_by_default() {
    let mut boxed = BoxBody::default();
    let hint = boxed.size_hint();
    assert_eq!((hint.lower(), hint.upper()), (0, Some(0)));
    assert!(pull(&mut boxed).is_none());
    let mut local = LocalBoxBody::default();
    assert!(pull(&mut local).is_none());
}

#[test]
fn local_box_body_emits_the_frames_of_the_body_it_holds() {
    let mut boxed = LocalBoxBody::new(script(vec![data(b"ab"), Step::Item(Err("broken".to_string()))]));
    assert_eq!(data_of(pull(&mut boxed)), b"ab");
    assert!(matches!(pull(&mut boxed), Some(Err(BoxError::Other(m))) if m == "broken"));
    assert!(pull(&mut boxed).is_none());
}

#[test]
fn different_bodies_fit_one_erased_type() {
    let mut bodies: Vec<BoxBody> = vec![
        BoxBody::new(Empty::new()),
        BoxBody::new(chunks(&[b"ab"])),
        BoxBody::new(collect_now(chunks(&[b"cd"])).unwrap()),
        BoxBody::new(BoxBody::new(chunks(&[b"ef"]))),
    ];
    let contents: Vec<Vec<u8>> = bodies
        .drain(..)
        .map(|body| match collect_now(body) {
            Ok(collected) => collected.to_bytes(),
            Err(_) => panic!("no body fails here"),
        })
        .collect();
    assert_eq!(contents, vec![b"".to_vec(), b"ab".to_vec(), b"cd".to_vec(), b"ef".to_vec()]);
}

#[test]
fn box_polled_converts_failures_only() {
    assert!(matches!(box_polled::<String>(Poll::Pending), Poll::Pending));
    assert!(matches!(box_polled::<String>(Poll::Ready(None)), Poll::Ready(None)));
    assert!(matches!(
        box_polled::<String>(Poll::Ready(Some(Err("e".to_string())))),
        Poll::Ready(Some(Err(BoxError::Other(m)))) if m == "e"
    ));
    assert_eq!(data_of(match box_polled::<Infallible>(Poll::Ready(Some(Ok(Frame::data(b"a".to_vec()))))) {
        Poll::Ready(item) => item,
        Poll::Pending => None,
    }), b"a");
}

#[test]
fn the_extension_methods_build_the_body_combinators() {
    let body = chunks(&[b"ab", b"cde"]).limit(5).map_err(|e: BoxError| format!("{e:?}")).stream();
    let mut boxed = StreamBody::new(body).boxed();
    assert_eq!(data_of(pull(&mut boxed)), b"ab");
    match chunks(&[b"ab", b"cde"]).limit(4).boxed_local().collect().poll(&mut cx()) {
        Poll::Ready(Err(BoxError::DataTooLarge)) => {}
        _ => panic!("the budget should have been exceeded"),
    }
    match chunks(&[b"ab", b"cde"]).collect().poll(&mut cx()) {
        Poll::Ready(Ok(collected)) => assert_eq!(collected.to_bytes(), b"abcde".to_vec()),
        _ => panic!("the body should have been collected"),
    }
}

#[test]
fn full_emits_its_bytes_as_one_chunk() {
    let mut body = Full::new(b"abc".to_vec());
    let hint = body.size_hint();
    assert_eq!((hint.lower(), hint.upper()), (3, Some(3)));
    assert_eq!(data_of(pull(&mut body)), b"abc");
    let hint = body.size_hint();
    assert_eq!((hint.lower(), hint.upper()), (0, Some(0)));
    assert!(!body.ended);
    assert!(pull(&mut body).is_none());
    assert!(body.ended);
}

#[test]
fn full_without_bytes_emits_no_chunk() {
    let mut body = Full::new(Vec::new());
    assert!(body.data.is_none());
    assert!(pull(&mut body).is_none());
    assert!(body.ended);
}

#[test]
fn a_body_that_has_ended_shows_it() {
    let mut empty = Empty::new();
    assert!(pull(&mut empty).is_none());
    assert!(empty.ended);
    let mut collect = Collect::new(chunks(&[b"ab"]));
    assert!(collect.poll(&mut cx()).is_ready());
    assert!(collect.collected.is_none());
    let mut body = chunks(&[]);
    let mut next = Next::new(&mut body);
    assert!(next.poll(&mut cx()).is_ready());
    assert!(next.done);
}
