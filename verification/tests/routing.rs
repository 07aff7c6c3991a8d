use std::task::{Context, Waker};

use echo_core::error::BoxError;
use echo_core::middleware::middleware_fn::middleware_fn;
use echo_core::route::endpoint::{method_conflict, Endpoint};
use echo_core::route::error::{RouteError, RouteErrorKind, RouteFailure, RouterError};
use echo_core::route::future::{route_polled, RouteFuture};
use echo_core::route::method::{
    any, connect, contains_method, delete, get, head, insert_method, method, options, patch, post,
    put, trace, Method, MethodRoute, Methods,
};
use echo_core::route::method_router::{MergeToMethodRouter, MethodRouter};
use echo_core::route::path::{
    append_bytes, no_leading_slash, route_pattern, scope_pattern, scoped_target, split_tail,
    RouteId, PRIVATE_TAIL_PARAM,
};
use echo_core::route::route::{IntoMethodRoute, Route};
use echo_core::service::service_fn::ServiceFn;
use echo_core::service::Service;
use echo_core::task::{ready, Operation, Poll};

fn cx() -> Context<'static> {
    Context::from_waker(Waker::noop())
}

fn named(methods: &Methods) -> Option<Vec<String>> {
    match methods {
        Methods::Any => None,
        Methods::One(m) => Some(vec![m.as_str().to_string()]),
        Methods::More(list) => {
            let mut names: Vec<String> = list.iter().map(|m| m.as_str().to_string()).collect();
            names.sort();
            Some(names)
        }
    }
}

fn names(list: &[&str]) -> Option<Vec<String>> {
    Some(list.iter().map(|n| n.to_string()).collect())
}

#[test]
fn methods_are_the_same_where_their_names_are() {
    assert!(Method::get().same(&Method::new("GET")));
    assert!(!Method::get().same(&Method::head()));
    assert!(!Method::get().same(&Method::new("get")));
    assert_eq!(Method::head().as_str(), "HEAD");
    assert_eq!(Method::new("PURGE").duplicate().as_str(), "PURGE");
}

#[test]
fn a_method_list_behaves_as_a_set() {
    let mut list = vec![Method::get()];
    assert!(contains_method(&list, &Method::get()));
    assert!(!contains_method(&list, &Method::head()));
    assert!(insert_method(&mut list, Method::head()));
    assert!(!insert_method(&mut list, Method::get()));
    assert_eq!(list.len(), 2);
}

#[test]
fn adding_a_method_narrows_any_and_widens_the_rest() {
    let one = Methods::Any.add(Method::get());
    assert_eq!(named(&one), names(&["GET"]));
    let two = one.add(Method::new("POST"));
    assert_eq!(named(&two), names(&["GET", "POST"]));
    let still_two = two.add(Method::get());
    assert_eq!(named(&still_two), names(&["GET", "POST"]));
    let same_twice = Methods::One(Method::get()).add(Method::get());
    assert_eq!(named(&same_twice), names(&["GET"]));
}

#[test]
fn method_routes_list_their_methods() {
    assert_eq!(named(&MethodRoute::any(1).methods), None);
    assert_eq!(named(&any(1).methods), None);
    assert_eq!(named(&MethodRoute::one(1, Method::get()).methods), names(&["GET"]));
    assert_eq!(named(&method(1, Method::new("PURGE")).methods), names(&["PURGE"]));
    let more = MethodRoute::more(7, vec![Method::get(), Method::head(), Method::get()]);
    assert_eq!(named(&more.methods), names(&["GET", "HEAD"]));
    assert_eq!(more.service, 7);
    let added = MethodRoute::any(1).add(Method::get()).add(Method::new("PUT"));
    assert_eq!(named(&added.methods), names(&["GET", "PUT"]));
}

#[test]
fn each_method_has_its_builder() {
    assert_eq!(named(&connect(0).methods), names(&["CONNECT"]));
    assert_eq!(named(&delete(0).methods), names(&["DELETE"]));
    assert_eq!(named(&get(0).methods), names(&["GET"]));
    assert_eq!(named(&head(0).methods), names(&["HEAD"]));
    assert_eq!(named(&options(0).methods), names(&["OPTIONS"]));
    assert_eq!(named(&patch(0).methods), names(&["PATCH"]));
    assert_eq!(named(&post(0).methods), names(&["POST"]));
    assert_eq!(named(&put(0).methods), names(&["PUT"]));
    assert_eq!(named(&trace(0).methods), names(&["TRACE"]));
}

#[test]
fn a_method_route_keeps_its_methods_under_a_middleware() {
    let route = get(20u32).with(middleware_fn(|service: u32| service + 1));
    assert_eq!(route.service, 21);
    assert_eq!(named(&route.methods), names(&["GET"]));
}

#[test]
fn a_method_router_answers_the_registered_method() {
    let mut router = MethodRouter::new();
    router.add("get it", Method::get());
    router.add("post it", Method::new("POST"));
    assert!(router.contains(&Method::get()));
    assert!(!router.contains(&Method::head()));
    assert!(!router.contains_any());
    assert_eq!(router.find(&Method::get()), Some(&"get it"));
    assert_eq!(router.find(&Method::new("POST")), Some(&"post it"));
    assert_eq!(router.find(&Method::new("PUT")), None);
    assert_eq!(router.position(&Method::new("POST")), Some(1));
    assert_eq!(router.position(&Method::new("PUT")), None);
}

#[test]
fn head_falls_back_to_get() {
    let mut router = MethodRouter::new();
    router.add("get it", Method::get());
    router.add_any("whatever");
    assert_eq!(router.find(&Method::head()), Some(&"get it"));
    router.add("head it", Method::head());
    assert_eq!(router.find(&Method::head()), Some(&"head it"));
}

#[test]
fn the_service_for_every_method_answers_last() {
    let mut router = MethodRouter::new();
    router.add_any("whatever");
    assert!(router.contains_any());
    assert_eq!(router.find(&Method::head()), Some(&"whatever"));
    assert_eq!(router.find(&Method::new("PURGE")), Some(&"whatever"));
    router.add("purge it", Method::new("PURGE"));
    assert_eq!(router.find(&Method::new("PURGE")), Some(&"purge it"));
    let empty: MethodRouter<u8> = MethodRouter::default();
    assert_eq!(empty.find(&Method::get()), None);
}

#[test]
fn registering_a_method_again_replaces_its_service() {
    let mut router = MethodRouter::new();
    router.add(1, Method::get());
    router.add(2, Method::head());
    router.add(3, Method::get());
    assert_eq!(router.find(&Method::get()), Some(&3));
    assert_eq!(router.find(&Method::head()), Some(&2));
    assert_eq!(router.map.len(), 2);
}

#[test]
fn method_routers_merge_without_conflict() {
    let mut target = MethodRouter::new();
    target.add(1, Method::get());
    let mut source = MethodRouter::new();
    source.add(2, Method::new("POST"));
    source.add(3, Method::new("PUT"));
    source.add_any(4);
    assert!(source.merge_to(&mut target).is_ok());
    assert_eq!(target.find(&Method::get()), Some(&1));
    assert_eq!(target.find(&Method::new("POST")), Some(&2));
    assert_eq!(target.find(&Method::new("PUT")), Some(&3));
    assert_eq!(target.find(&Method::new("PURGE")), Some(&4));
}

#[test]
fn merging_method_routers_names_a_method_that_is_taken() {
    let mut target = MethodRouter::new();
    target.add(1, Method::get());
    target.add_any(9);
    let mut source = MethodRouter::new();
    source.add(2, Method::new("POST"));
    source.add(3, Method::get());
    source.add_any(4);
    match source.merge_to(&mut target) {
        Err(Some(method)) => assert_eq!(method.as_str(), "GET"),
        _ => panic!("the methods should have conflicted"),
    }
    assert_eq!(target.map.len(), 1);
    assert_eq!(target.find(&Method::new("POST")), Some(&9));
}

#[test]
fn merging_method_routers_names_the_claim_to_every_method() {
    let mut target = MethodRouter::new();
    target.add_any(9);
    let mut source = MethodRouter::new();
    source.add(2, Method::new("POST"));
    source.add_any(4);
    assert!(matches!(source.merge_to(&mut target), Err(None)));
    assert_eq!(target.map.len(), 0);
    assert_eq!(target.find(&Method::new("POST")), Some(&9));
}

#[test]
fn method_routes_merge_into_a_method_router() {
    let mut target = MethodRouter::new();
    assert!(get(1).merge_to(&mut target).is_ok());
    assert!(MethodRoute::more(2, vec![Method::new("POST"), Method::new("PUT")]).merge_to(&mut target).is_ok());
    assert!(any(3).merge_to(&mut target).is_ok());
    assert_eq!(target.find(&Method::get()), Some(&1));
    assert_eq!(target.find(&Method::new("POST")), Some(&2));
    assert_eq!(target.find(&Method::new("PUT")), Some(&2));
    assert_eq!(target.find(&Method::new("PURGE")), Some(&3));
}

#[test]
fn merging_a_method_route_names_the_conflict() {
    let mut target = MethodRouter::new();
    target.add(1, Method::get());
    target.add_any(9);
    assert!(matches!(get(2).merge_to(&mut target), Err(Some(m)) if m.as_str() == "GET"));
    assert!(matches!(any(2).merge_to(&mut target), Err(None)));
    let more = MethodRoute::more(2, vec![Method::new("POST"), Method::get()]);
    assert!(matches!(more.merge_to(&mut target), Err(Some(m)) if m.as_str() == "GET"));
    assert_eq!(target.map.len(), 1);
    assert_eq!(target.find(&Method::get()), Some(&1));
    assert_eq!(target.find(&Method::new("POST")), Some(&9));
}

#[test]
fn a_route_future_hands_out_what_the_service_gives() {
    let mut found: RouteFuture<_, &str> = RouteFuture::A { fut: ready(Ok::<u8, String>(3)) };
    assert!(matches!(found.poll(&mut cx()), Poll::Ready(Ok(3))));
    let mut failed: RouteFuture<_, &str> =
        RouteFuture::A { fut: ready(Err::<u8, String>("broken".to_string())) };
    assert!(matches!(
        failed.poll(&mut cx()),
        Poll::Ready(Err(RouteFailure::Service(BoxError::Other(m)))) if m == "broken"
    ));
}

#[test]
fn a_route_future_hands_out_the_failure_to_route_with_the_request() {
    let mut missing: RouteFuture<echo_core::task::Ready<Result<u8, String>>, &str> =
        RouteFuture::B { err: Some(RouteError::not_found("the request")) };
    match missing.poll(&mut cx()) {
        Poll::Ready(Err(failure)) => {
            assert_eq!(failure.kind(), Some(RouteErrorKind::NotFound));
            assert_eq!(failure.message(), "Not Found");
            assert_eq!(failure.into_request(), Some("the request"));
        }
        _ => panic!("the failure should have come"),
    }
    assert!(matches!(missing, RouteFuture::B { err: None }));
}

#[test]
fn route_polled_converts_failures_only() {
    assert!(matches!(route_polled::<u8, String, ()>(Poll::Pending), Poll::Pending));
    assert!(matches!(route_polled::<u8, String, ()>(Poll::Ready(Ok(1))), Poll::Ready(Ok(1))));
    assert!(matches!(
        route_polled::<u8, String, ()>(Poll::Ready(Err("e".to_string()))),
        Poll::Ready(Err(RouteFailure::Service(BoxError::Other(m)))) if m == "e"
    ));
}

#[test]
fn a_route_failure_of_the_service_holds_no_request() {
    let failure: RouteFailure<u8> = RouteFailure::Service(BoxError::DataTooLarge);
    assert_eq!(failure.kind(), None);
    assert_eq!(failure.message(), "data too large");
    assert_eq!(failure.into_request(), None);
}

fn answer_with(tag: u32) -> impl Fn(u32) -> echo_core::task::Ready<Result<u32, String>> {
    move |req: u32| ready(Ok(req + tag))
}

#[test]
fn a_method_router_calls_the_one_service_that_answers() {
    let mut router = MethodRouter::new();
    router.add(ServiceFn { f: answer_with(100) }, Method::get());
    router.add(ServiceFn { f: answer_with(200) }, Method::new("POST"));
    router.add_any(ServiceFn { f: answer_with(900) });
    assert!(matches!(router.call(&Method::get(), 1).poll(&mut cx()), Poll::Ready(Ok(101))));
    assert!(matches!(router.call(&Method::new("POST"), 1).poll(&mut cx()), Poll::Ready(Ok(201))));
    assert!(matches!(router.call(&Method::head(), 1).poll(&mut cx()), Poll::Ready(Ok(101))));
    assert!(matches!(router.call(&Method::new("PUT"), 1).poll(&mut cx()), Poll::Ready(Ok(901))));
}

#[test]
fn a_method_router_without_an_answer_hands_the_request_back() {
    let mut router = MethodRouter::new();
    router.add(ServiceFn { f: answer_with(100) }, Method::get());
    let mut fut = router.call(&Method::new("PUT"), 7);
    assert!(matches!(fut, RouteFuture::B { err: Some(_) }));
    match fut.poll(&mut cx()) {
        Poll::Ready(Err(failure)) => {
            assert_eq!(failure.kind(), Some(RouteErrorKind::MethodNotAllowed));
            assert_eq!(failure.into_request(), Some(7));
        }
        _ => panic!("no service should have answered"),
    }
}

#[test]
fn route_errors_keep_the_request() {
    let mut error = RouteError::not_found("request");
    assert_eq!(error.kind(), RouteErrorKind::NotFound);
    assert_eq!(error.message(), "Not Found");
    *error.request_mut() = "changed";
    assert_eq!(error.into_request(), "changed");
    let other = RouteError::method_not_allowed(7);
    assert_eq!(other.kind(), RouteErrorKind::MethodNotAllowed);
    assert_eq!(other.message(), "Method Not Allowed");
    assert_eq!(RouteError::new(RouteErrorKind::NotFound, 1).kind(), RouteErrorKind::NotFound);
    assert_eq!(RouteErrorKind::MethodNotAllowed.message(), "Method Not Allowed");
}

#[test]
fn router_errors_tell_conflicts_from_invalid_paths() {
    let conflict = RouterError::from_insert_error("/a".to_string(), true, "taken".to_string());
    assert!(matches!(&conflict, RouterError::Conflict { path, message } if path == "/a" && message == "taken"));
    assert!(conflict.is_conflict());
    let invalid = RouterError::from_insert_error("/:".to_string(), false, "unnamed".to_string());
    assert!(matches!(&invalid, RouterError::InvalidPath { path, message } if path == "/:" && message == "unnamed"));
    assert!(!invalid.is_conflict());
    assert!(!RouterError::TooManyPath.is_conflict());
    assert!(matches!(
        RouterError::route_conflict("/a".to_string()),
        RouterError::Conflict { path, message }
            if path == "/a" && message == "conflict with previously registered route"
    ));
}

#[test]
fn route_ids_count_up_to_the_last() {
    assert_eq!(RouteId::default(), RouteId(0));
    assert_eq!(RouteId(0).next(), Some(RouteId(1)));
    assert_eq!(RouteId(41).next(), Some(RouteId(42)));
    assert_eq!(RouteId(u32::MAX - 1).next(), Some(RouteId(u32::MAX)));
    assert_eq!(RouteId(u32::MAX).next(), None);
}

#[test]
fn a_route_pattern_is_the_path_or_names_the_tail() {
    assert_eq!(route_pattern("/users/:id").unwrap(), b"/users/:id".to_vec());
    assert_eq!(route_pattern("/").unwrap(), b"/".to_vec());
    assert_eq!(route_pattern("/files/*").unwrap(), b"/files/*__private__tail_param".to_vec());
    assert_eq!(PRIVATE_TAIL_PARAM, "__private__tail_param");
}

#[test]
fn a_scope_pattern_always_names_the_tail() {
    assert_eq!(scope_pattern("/api").unwrap(), b"/api/*__private__tail_param".to_vec());
    assert_eq!(scope_pattern("/api/").unwrap(), b"/api/*__private__tail_param".to_vec());
    assert_eq!(scope_pattern("/").unwrap(), b"/*__private__tail_param".to_vec());
}

#[test]
fn a_path_must_start_with_a_slash() {
    for path in ["", "users", "*"] {
        for out in [route_pattern(path), scope_pattern(path)] {
            assert!(matches!(
                out,
                Err(RouterError::InvalidPath { path: p, message })
                    if p == path && message == "path must start with a `/`"
            ));
        }
    }
    assert!(matches!(no_leading_slash("x"), RouterError::InvalidPath { path, .. } if path == "x"));
}

#[test]
fn a_scoped_target_starts_with_one_slash() {
    assert_eq!(scoped_target("users/1", None), b"/users/1".to_vec());
    assert_eq!(scoped_target("/users/1", None), b"/users/1".to_vec());
    assert_eq!(scoped_target("//users", None), b"//users".to_vec());
    assert_eq!(scoped_target("", None), b"/".to_vec());
    assert_eq!(scoped_target("users", Some("a=1&b=2")), b"/users?a=1&b=2".to_vec());
    assert_eq!(scoped_target("/", Some("")), b"/?".to_vec());
}

#[test]
fn append_bytes_appends() {
    let mut out = b"ab".to_vec();
    append_bytes(&mut out, b"cd");
    append_bytes(&mut out, b"");
    assert_eq!(out, b"abcd".to_vec());
}

#[test]
fn a_route_keeps_path_and_methods() {
    let route = Route::new("/users".to_string(), get(1u32));
    assert_eq!(route.path, "/users");
    assert_eq!(named(&route.service.methods), names(&["GET"]));
    let wrapped = route.with(middleware_fn(|service: u32| service * 2));
    assert_eq!(wrapped.path, "/users");
    assert_eq!(wrapped.service.service, 2);
    assert_eq!(named(&get(5u8).into_method_route().methods), names(&["GET"]));
}

#[test]
fn a_bare_service_answers_every_method() {
    let route = ServiceFn { f: answer_with(1) }.into_method_route();
    assert_eq!(named(&route.methods), None);
    assert!(matches!(route.service.call(1).poll(&mut cx()), Poll::Ready(Ok(2))));
    let mounted = Route::new("/all".to_string(), ServiceFn { f: answer_with(2) });
    assert_eq!(mounted.path, "/all");
    assert_eq!(named(&mounted.service.methods), None);
}

fn conflict_message(res: Result<(), RouterError>) -> (String, String) {
    match res {
        Err(RouterError::Conflict { path, message }) => (path, message),
        other => panic!("no conflict: {other:?}"),
    }
}

#[test]
fn an_endpoint_takes_more_services_of_its_kind() {
    let mut route = Endpoint::Route(MethodRouter::new());
    assert!(route.merge("/a".to_string(), Endpoint::Route(get(1))).is_ok());
    assert!(route.merge("/a".to_string(), Endpoint::Route(post(2))).is_ok());
    match &route {
        Endpoint::Route(router) => {
            assert_eq!(router.find(&Method::get()), Some(&1));
            assert_eq!(router.find(&Method::new("POST")), Some(&2));
        }
        Endpoint::Scope(_) => panic!("a route stays a route"),
    }
    let mut scope = Endpoint::Scope(MethodRouter::new());
    assert!(scope.merge("/b".to_string(), Endpoint::Scope(any(3))).is_ok());
    assert!(matches!(&scope, Endpoint::Scope(router) if router.find(&Method::get()) == Some(&3)));
}

#[test]
fn a_route_does_not_go_with_a_scope() {
    let mut route = Endpoint::Route(MethodRouter::new());
    assert_eq!(
        conflict_message(route.merge("/a".to_string(), Endpoint::Scope(get(1)))),
        ("/a".to_string(), "conflict with previously registered route".to_string())
    );
    let mut scope = Endpoint::Scope(MethodRouter::new());
    assert_eq!(
        conflict_message(scope.merge("/b".to_string(), Endpoint::Route(get(1)))),
        ("/b".to_string(), "conflict with previously registered route".to_string())
    );
    assert!(matches!(&scope, Endpoint::Scope(router) if router.map.is_empty()));
}

#[test]
fn an_endpoint_names_the_method_that_is_taken() {
    let mut route = Endpoint::Route(MethodRouter::new());
    assert!(route.merge("/a".to_string(), Endpoint::Route(get(1))).is_ok());
    assert!(route.merge("/a".to_string(), Endpoint::Route(any(2))).is_ok());
    assert_eq!(
        conflict_message(route.merge("/a".to_string(), Endpoint::Route(get(3)))),
        ("/a".to_string(), "conflict with previously registered `GET` HTTP method".to_string())
    );
    assert_eq!(
        conflict_message(route.merge("/a".to_string(), Endpoint::Route(any(4)))),
        ("/a".to_string(), "conflict with previously registered any HTTP method".to_string())
    );
    assert!(matches!(&route, Endpoint::Route(router) if router.find(&Method::get()) == Some(&1)));
}

#[test]
fn an_endpoint_makes_more_of_its_kind() {
    assert!(matches!(Endpoint::Route(1).like("x"), Endpoint::Route("x")));
    assert!(matches!(Endpoint::Scope(1).like("x"), Endpoint::Scope("x")));
    assert!(matches!(
        method_conflict("/p".to_string(), Some(Method::new("PUT"))),
        RouterError::Conflict { path, message }
            if path == "/p" && message == "conflict with previously registered `PUT` HTTP method"
    ));
}

#[test]
fn router_errors_describe_themselves() {
    assert_eq!(
        RouterError::from_insert_error("/a".to_string(), true, "taken".to_string()).message(),
        "conflict path /a (taken)"
    );
    assert_eq!(
        RouterError::from_insert_error("/:".to_string(), false, "unnamed".to_string()).message(),
        "invalid path /: (unnamed)"
    );
    assert_eq!(RouterError::TooManyPath.message(), "too many path");
    assert_eq!(
        no_leading_slash("x").message(),
        "invalid path x (path must start with a `/`)"
    );
}

#[test]
fn box_errors_describe_themselves() {
    assert_eq!(BoxError::DataTooLarge.message(), "data too large");
    assert_eq!(BoxError::other("boom".to_string()).message(), "boom");
}

fn pair(name: &str, value: &str) -> (String, String) {
    (name.to_string(), value.to_string())
}

#[test]
fn the_tail_is_parted_from_the_parameters() {
    let (visible, tail) = split_tail(vec![pair("id", "7"), pair(PRIVATE_TAIL_PARAM, "a/b"), pair("x", "y")]);
    assert_eq!(visible, vec![pair("id", "7"), pair("x", "y")]);
    assert_eq!(tail, Some("a/b".to_string()));
    let (visible, tail) = split_tail(vec![pair("id", "7")]);
    assert_eq!(visible, vec![pair("id", "7")]);
    assert_eq!(tail, None);
    let (visible, tail) = split_tail(Vec::new());
    assert!(visible.is_empty());
    assert_eq!(tail, None);
    let (visible, tail) = split_tail(vec![pair(PRIVATE_TAIL_PARAM, "first"), pair(PRIVATE_TAIL_PARAM, "last")]);
    assert!(visible.is_empty());
    assert_eq!(tail, Some("last".to_string()));
}
