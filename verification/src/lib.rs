//! Composable request/response pipelines: services that turn a request into
//! an operation resolving to a response or a failure, middleware that turns
//! one service into another, and bodies that hand out frames one pull at a
//! time.
//!
//! - [`task`]: the pull protocol, `Poll` and `Operation`.
//! - [`service`]: the `Service` trait, its combinators and the wrappers that
//!   hide a service's type.
//! - [`middleware`]: transformations from service to service.
//! - [`body`]: the `Body` trait, frames, size hints, buffer lists and the
//!   body combinators.
//! - [`route`]: the rules of routing on plain values.
//! - [`error`]: the uniform error of erased bodies and services.
//!
//! Every function is verified, but for the three that call into the header
//! map of `http` and one of std, whose contracts are stated and believed
//! (see [`body::trailers`] and [`route::error`]). The contracts are stated
//! over the relations `accepts` / `responds` / `starts` of a service,
//! `pollable` / `admits` of an operation and the sequence `remaining` of a
//! body, and
//! over when a pull finds nothing ready (`stalls` / `may_stall` of an
//! operation, `waits` of a body): what a combinator does, and when its pull
//! is pending, is said in terms of what the service, operation or body
//! inside it does.

pub mod body;
pub mod error;
pub mod middleware;
pub mod route;
pub mod service;
pub mod task;

pub use error::BoxError;
