//! The operation of a routed call.

use crate::error::BoxError;
use crate::route::error::{RouteError, RouteFailure};
use crate::task::{Operation, Poll};
use core::task::Context;
use vstd::prelude::*;

verus! {

/// The operation of a call that went through a router: the operation of
/// the service that was found, or the failure to find one, which holds the
/// request.
#[allow(inconsistent_fields)]
pub enum RouteFuture<Fut, R> {
    /// A service was found; its operation is running.
    A { fut: Fut },
    /// No service was found; the failure is handed out at the first pull.
    B { err: Option<RouteError<R>> },
}

/// Takes what a pull of the routed service gave and converts a failure
/// into the uniform error, marked as the service's. Everything else is
/// handed on as it is.
pub fn route_polled<Res, E: Into<BoxError>, R>(polled: Poll<Result<Res, E>>) -> (out: Poll<
    Result<Res, RouteFailure<R>>,
>)
    ensures
        match polled {
            Poll::Pending => out == Poll::<Result<Res, RouteFailure<R>>>::Pending,
            Poll::Ready(Ok(res)) => out == Poll::Ready(Ok::<Res, RouteFailure<R>>(res)),
            Poll::Ready(Err(e)) => out matches Poll::Ready(Err(RouteFailure::Service(converted)))
                && call_ensures(E::into, (e,), converted),
        },
{
    match polled {
        Poll::Pending => Poll::Pending,
        Poll::Ready(Ok(res)) => Poll::Ready(Ok(res)),
        Poll::Ready(Err(err)) => Poll::Ready(Err(RouteFailure::Service(err.into()))),
    }
}

impl<Fut, Res, E, R> Operation for RouteFuture<Fut, R> where
    Fut: Operation<Output = Result<Res, E>>,
    E: Into<BoxError>,
 {
    type Output = Result<Res, RouteFailure<R>>;

    open spec fn pollable(&self) -> bool {
        match self {
            RouteFuture::A { fut } => fut.pollable(),
            RouteFuture::B { err } => *err is Some,
        }
    }

    open spec fn admits(&self, out: Result<Res, RouteFailure<R>>) -> bool {
        match self {
            RouteFuture::A { fut } => match out {
                Ok(res) => fut.admits(Ok(res)),
                Err(RouteFailure::Service(converted)) => exists|e: E|
                    fut.admits(Err(e)) && call_ensures(E::into, (e,), converted),
                Err(RouteFailure::Route(_)) => false,
            },
            RouteFuture::B { err } => *err matches Some(e) && out == Err::<Res, RouteFailure<R>>(
                RouteFailure::Route(e),
            ),
        }
    }

    open spec fn stalls(&self) -> bool {
        match self {
            RouteFuture::A { fut } => fut.stalls(),
            RouteFuture::B { .. } => false,
        }
    }

    open spec fn may_stall(&self) -> bool {
        match self {
            RouteFuture::A { fut } => fut.may_stall(),
            RouteFuture::B { .. } => false,
        }
    }

    /// Pulls the service's operation, or hands out the failure to find a
    /// service, with the request in it.
    fn poll(&mut self, cx: &mut Context<'_>) -> (out: Poll<Result<Res, RouteFailure<R>>>)
        ensures
            *old(self) matches RouteFuture::B { err: Some(e) } ==> out == Poll::Ready(
                Err::<Res, RouteFailure<R>>(RouteFailure::Route(e)),
            ) && *final(self) == (RouteFuture::<Fut, R>::B { err: None }),
            *old(self) is A ==> *final(self) is A,
    {
        match self {
            RouteFuture::A { fut } => {
                let polled = fut.poll(cx);
                route_polled(polled)
            },
            RouteFuture::B { err } => match err.take() {
                Some(e) => Poll::Ready(Err(RouteFailure::Route(e))),
                None => Poll::Pending,
            },
        }
    }
}

} // verus!
