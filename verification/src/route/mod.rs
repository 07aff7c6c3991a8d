//! The rules of routing, as far as they are rules on plain values: which
//! service answers a method, when two registrations conflict, and what
//! pattern a path stands for.

pub mod endpoint;
pub mod error;
pub mod future;
pub mod method;
pub mod method_router;
pub mod path;
pub mod route;

pub use endpoint::Endpoint;
pub use error::{RouteError, RouteErrorKind, RouteFailure, RouterError};
pub use future::RouteFuture;
pub use method::{
    any, connect, delete, get, head, method, options, patch, post, put, trace, Method, MethodRoute,
};
pub use method_router::{MergeToMethodRouter, MethodRouter};
pub use path::RouteId;
pub use route::{IntoMethodRoute, Route};
