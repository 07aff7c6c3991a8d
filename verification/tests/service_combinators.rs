use std::cell::Cell;
use std::rc::Rc;
use std::sync::Arc;
use std::task::{Context, Waker};

use echo_core::middleware::middleware_fn::middleware_fn;
use echo_core::middleware::Middleware;
use echo_core::service::and_then::AndThen;
use echo_core::service::ext::ServiceExt;
use echo_core::service::map_err::MapErr;
use echo_core::service::map_ok::MapOk;
use echo_core::service::map_request::MapRequest;
use echo_core::service::map_result::MapResult;
use echo_core::service::or_else::OrElse;
use echo_core::service::service_fn::service_fn;
use echo_core::service::state::State;
use echo_core::service::then::Then;
use echo_core::service::Service;
use echo_core::task::{ready, Operation, Poll, Ready};

/// An operation that is pending for a number of pulls before it resolves.
struct Later<T> {
    waits: u32,
    value: Option<T>,
}

fn later<T>(waits: u32, value: T) -> Later<T> {
    Later { waits, value: Some(value) }
}

impl<T> Operation for Later<T> {
    type Output = T;

    fn pollable(&self) -> bool {
        unreachable!()
    }

    fn admits(&self, _v: T) -> bool {
        unreachable!()
    }

    fn stalls(&self) -> bool {
        unreachable!()
    }

    fn may_stall(&self) -> bool {
        unreachable!()
    }

    fn poll(&mut self, _cx: &mut Context<'_>) -> Poll<T> {
        if self.waits > 0 {
            self.waits -= 1;
            Poll::Pending
        } else {
            Poll::Ready(self.value.take().unwrap())
        }
    }
}

type Outcome = Result<u32, String>;

fn succeed(req: u32) -> Ready<Outcome> {
    ready(Ok(req + 1))
}

fn fail(req: u32) -> Ready<Outcome> {
    ready(Err(format!("no {req}")))
}

fn cx() -> Context<'static> {
    Context::from_waker(Waker::noop())
}

#[test]
fn poll_tells_ready_from_pending() {
    let value: Poll<u8> = Poll::Ready(3);
    let nothing: Poll<u8> = Poll::Pending;
    assert!(value.is_ready());
    assert!(!value.is_pending());
    assert!(nothing.is_pending());
    assert!(!nothing.is_ready());
}

#[test]
fn ready_resolves_at_the_first_pull() {
    let mut op = ready(7u8);
    assert_eq!(op.poll(&mut cx()), Poll::Ready(7));
    assert!(op.value.is_none());
}

#[test]
fn service_fn_runs_the_function_on_the_request() {
    let service = service_fn(succeed);
    assert_eq!(service.call(1).poll(&mut cx()), Poll::Ready(Ok(2)));
    assert_eq!(service.call(41).poll(&mut cx()), Poll::Ready(Ok(42)));
}

#[test]
fn map_ok_applies_the_function_to_a_response() {
    let service = MapOk::new(service_fn(succeed), |v: u32| v * 10);
    assert_eq!(service.call(4).poll(&mut cx()), Poll::Ready(Ok(50)));
}

#[test]
fn map_ok_hands_a_failure_on_unchanged() {
    let service = MapOk::new(service_fn(fail), |v: u32| v * 10);
    assert_eq!(service.call(4).poll(&mut cx()), Poll::Ready(Err("no 4".to_string())));
}

#[test]
fn map_ok_hands_pending_on_until_the_inner_operation_resolves() {
    let service = MapOk::new(service_fn(|req: u32| later(2, Ok::<u32, String>(req))), |v: u32| v + 1);
    let mut fut = service.call(7);
    assert_eq!(fut.poll(&mut cx()), Poll::Pending);
    assert_eq!(fut.poll(&mut cx()), Poll::Pending);
    assert_eq!(fut.poll(&mut cx()), Poll::Ready(Ok(8)));
}

#[test]
fn map_ok_step_maps_each_kind_of_pull() {
    let service = MapOk::new(service_fn(succeed), |v: u32| v * 2);
    let fut = service.call(0);
    assert_eq!(fut.polled(Poll::Pending), Poll::Pending);
    assert_eq!(fut.polled(Poll::Ready(Ok(21))), Poll::Ready(Ok(42)));
    assert_eq!(fut.polled(Poll::Ready(Err("e".to_string()))), Poll::Ready(Err("e".to_string())));
}

#[test]
fn map_err_applies_the_function_to_a_failure_only() {
    let failing = MapErr::new(service_fn(fail), |e: String| e.len());
    assert_eq!(failing.call(4).poll(&mut cx()), Poll::Ready(Err(4)));
    let working = MapErr::new(service_fn(succeed), |e: String| e.len());
    assert_eq!(working.call(4).poll(&mut cx()), Poll::Ready(Ok(5)));
}

#[test]
fn map_result_applies_the_function_to_the_whole_outcome() {
    let swap = |r: Outcome| -> Result<String, u32> {
        match r {
            Ok(v) => Err(v),
            Err(e) => Ok(e),
        }
    };
    let working = MapResult::new(service_fn(succeed), swap);
    assert_eq!(working.call(4).poll(&mut cx()), Poll::Ready(Err(5)));
    let failing = MapResult::new(service_fn(fail), swap);
    assert_eq!(failing.call(4).poll(&mut cx()), Poll::Ready(Ok("no 4".to_string())));
}

#[test]
fn map_request_changes_the_request_before_the_call() {
    let service = MapRequest::new(service_fn(succeed), |text: &str| text.len() as u32);
    assert_eq!(service.call("abc").poll(&mut cx()), Poll::Ready(Ok(4)));
}

#[test]
fn then_runs_the_follow_up_on_a_response_and_on_a_failure() {
    let follow = |r: Outcome| ready(Ok::<String, ()>(format!("{r:?}")));
    let working = Then::new(service_fn(succeed), follow);
    assert_eq!(working.call(1).poll(&mut cx()), Poll::Ready(Ok("Ok(2)".to_string())));
    let failing = Then::new(service_fn(fail), follow);
    assert_eq!(failing.call(1).poll(&mut cx()), Poll::Ready(Ok("Err(\"no 1\")".to_string())));
}

#[test]
fn then_moves_through_its_three_states() {
    let service = Then::new(
        service_fn(|req: u32| later(1, Ok::<u32, String>(req))),
        |r: Outcome| later(1, r.map(|v| v + 100)),
    );
    let mut fut = service.call(5);
    assert!(matches!(fut.state, State::A { .. }));
    assert_eq!(fut.poll(&mut cx()), Poll::Pending);
    assert!(matches!(fut.state, State::A { .. }));
    assert_eq!(fut.poll(&mut cx()), Poll::Pending);
    assert!(matches!(fut.state, State::B { .. }));
    assert_eq!(fut.poll(&mut cx()), Poll::Ready(Ok(105)));
    assert!(matches!(fut.state, State::Empty));
}

#[test]
fn then_steps_change_the_state_as_stated() {
    let service = Then::new(service_fn(succeed), |r: Outcome| ready(r));
    let mut fut = service.call(5);
    assert_eq!(fut.first_polled(Poll::Pending), Some(Poll::Pending));
    assert!(matches!(fut.state, State::A { .. }));
    assert_eq!(fut.first_polled(Poll::Ready(Ok(9))), None);
    assert!(matches!(fut.state, State::B { .. }));
    assert_eq!(fut.second_polled(Poll::Pending), Poll::Pending);
    assert!(matches!(fut.state, State::B { .. }));
    assert_eq!(fut.second_polled(Poll::Ready(Ok(9))), Poll::Ready(Ok(9)));
    assert!(matches!(fut.state, State::Empty));
}

#[test]
fn and_then_runs_the_follow_up_on_a_response() {
    let calls = Cell::new(0u32);
    let service = AndThen::new(service_fn(succeed), |v: u32| {
        calls.set(calls.get() + 1);
        ready(Ok::<String, String>(format!("got {v}")))
    });
    assert_eq!(service.call(1).poll(&mut cx()), Poll::Ready(Ok("got 2".to_string())));
    assert_eq!(calls.get(), 1);
}

#[test]
fn and_then_never_runs_the_follow_up_on_a_failure() {
    let calls = Cell::new(0u32);
    let service = AndThen::new(service_fn(fail), |v: u32| {
        calls.set(calls.get() + 1);
        ready(Ok::<String, String>(format!("got {v}")))
    });
    let mut fut = service.call(1);
    assert_eq!(fut.poll(&mut cx()), Poll::Ready(Err("no 1".to_string())));
    assert_eq!(calls.get(), 0);
    assert!(matches!(fut.state, State::A { .. }));
}

#[test]
fn and_then_hands_on_the_failure_of_the_follow_up() {
    let service = AndThen::new(service_fn(succeed), |v: u32| ready(Err::<u32, String>(format!("late {v}"))));
    assert_eq!(service.call(1).poll(&mut cx()), Poll::Ready(Err("late 2".to_string())));
}

#[test]
fn or_else_runs_the_follow_up_on_a_failure() {
    let calls = Cell::new(0u32);
    let service = OrElse::new(service_fn(fail), |e: String| {
        calls.set(calls.get() + 1);
        ready(Ok::<u32, ()>(e.len() as u32))
    });
    assert_eq!(service.call(1).poll(&mut cx()), Poll::Ready(Ok(4)));
    assert_eq!(calls.get(), 1);
}

#[test]
fn or_else_never_runs_the_follow_up_on_a_response() {
    let calls = Cell::new(0u32);
    let service = OrElse::new(service_fn(succeed), |e: String| {
        calls.set(calls.get() + 1);
        ready(Ok::<u32, ()>(e.len() as u32))
    });
    let mut fut = service.call(1);
    assert_eq!(fut.poll(&mut cx()), Poll::Ready(Ok(2)));
    assert_eq!(calls.get(), 0);
    assert!(matches!(fut.state, State::A { .. }));
}

#[test]
fn two_phase_operations_wait_for_both_phases() {
    let service = AndThen::new(
        service_fn(|req: u32| later(1, Ok::<u32, String>(req))),
        |v: u32| later(2, Ok::<u32, String>(v * 2)),
    );
    let mut fut = service.call(21);
    assert_eq!(fut.poll(&mut cx()), Poll::Pending);
    assert_eq!(fut.poll(&mut cx()), Poll::Pending);
    assert_eq!(fut.poll(&mut cx()), Poll::Pending);
    assert_eq!(fut.poll(&mut cx()), Poll::Ready(Ok(42)));
    assert!(matches!(fut.state, State::Empty));
}

#[test]
fn services_behind_pointers_are_services() {
    let service = service_fn(succeed);
    let by_ref = &service;
    assert_eq!(by_ref.call(1).poll(&mut cx()), Poll::Ready(Ok(2)));
    let boxed = Box::new(service_fn(succeed));
    assert_eq!(boxed.call(2).poll(&mut cx()), Poll::Ready(Ok(3)));
    let counted = Rc::new(service_fn(succeed));
    assert_eq!(counted.call(3).poll(&mut cx()), Poll::Ready(Ok(4)));
    let shared = Arc::new(service_fn(succeed));
    assert_eq!(shared.call(4).poll(&mut cx()), Poll::Ready(Ok(5)));
    let mut owned = service_fn(succeed);
    let by_mut = &mut owned;
    assert_eq!(by_mut.call(5).poll(&mut cx()), Poll::Ready(Ok(6)));
}

#[test]
fn a_service_can_be_called_again_and_again() {
    let service = MapOk::new(service_fn(succeed), |v: u32| v * 2);
    let mut first = service.call(1);
    let mut second = service.call(2);
    assert_eq!(second.poll(&mut cx()), Poll::Ready(Ok(6)));
    assert_eq!(first.poll(&mut cx()), Poll::Ready(Ok(4)));
}

#[test]
fn middleware_fn_applies_the_function_once() {
    let double = middleware_fn(|service| MapOk::new(service, |v: u32| v * 2));
    let service = double.transform(service_fn(succeed));
    assert_eq!(service.call(1).poll(&mut cx()), Poll::Ready(Ok(4)));
}

#[test]
fn with_applies_a_middleware_to_the_service() {
    let service = service_fn(succeed).with(middleware_fn(|service| MapOk::new(service, |v: u32| v + 10)));
    assert_eq!(service.call(1).poll(&mut cx()), Poll::Ready(Ok(12)));
}

#[test]
fn the_extension_methods_build_the_combinators() {
    let service = service_fn(succeed)
        .map_ok(|v: u32| v * 2)
        .map_err(|e: String| e.len())
        .map_request(|text: &str| text.len() as u32);
    assert_eq!(service.call("abc").poll(&mut cx()), Poll::Ready(Ok(8)));
    let chained = service_fn(fail)
        .or_else(|e: String| ready(Ok::<u32, String>(e.len() as u32)))
        .and_then(|v: u32| ready(Ok::<u32, String>(v + 1)))
        .then(|r: Outcome| ready(r.map(|v| v * 3)))
        .map(|r: Outcome| r.map_err(|_| ()));
    assert_eq!(chained.call(7).poll(&mut cx()), Poll::Ready(Ok(15)));
}

#[test]
fn a_resolved_operation_shows_that_it_is_spent() {
    let then = Then::new(service_fn(succeed), |r: Outcome| ready(r));
    let mut fut = then.call(1);
    assert!(fut.poll(&mut cx()).is_ready());
    assert!(matches!(fut.state, State::Empty));
    let and_then = AndThen::new(service_fn(succeed), |v: u32| ready(Ok::<u32, String>(v)));
    let mut fut = and_then.call(1);
    assert!(fut.poll(&mut cx()).is_ready());
    assert!(matches!(fut.state, State::Empty));
    let or_else = OrElse::new(service_fn(fail), |e: String| ready(Err::<u32, String>(e)));
    let mut fut = or_else.call(1);
    assert!(fut.poll(&mut cx()).is_ready());
    assert!(matches!(fut.state, State::Empty));
    let map_ok = MapOk::new(service_fn(succeed), |v: u32| v);
    let mut fut = map_ok.call(1);
    assert!(fut.poll(&mut cx()).is_ready());
    assert!(fut.fut.value.is_none());
}
