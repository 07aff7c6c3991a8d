//! What can go wrong when a request is routed or a route is registered.

use crate::error::BoxError;
use vstd::prelude::*;

verus! {

/// `String::push_str` of std: it appends the string slice to the end of the
/// string.
pub assume_specification[ String::push_str ](s: &mut String, other: &str)
    ensures
        final(s)@ == old(s)@ + other@,
;

/// Why no service answered a request.
#[derive(Debug, Clone, Copy, PartialEq, Eq, Hash, Structural)]
pub enum RouteErrorKind {
    /// No route matches the path.
    NotFound,
    /// A route matches the path, but none of its services answers the
    /// method.
    MethodNotAllowed,
}

impl RouteErrorKind {
    /// The description of the failure: `Not Found` or `Method Not Allowed`.
    pub fn message(&self) -> (text: String)
        ensures
            text@ == (match self {
                RouteErrorKind::NotFound => "Not Found"@,
                RouteErrorKind::MethodNotAllowed => "Method Not Allowed"@,
            }),
    {
        match self {
            RouteErrorKind::NotFound => "Not Found".to_string(),
            RouteErrorKind::MethodNotAllowed => "Method Not Allowed".to_string(),
        }
    }
}

/// A request that no service answered, with the reason. The request can be
/// taken back out.
#[derive(Debug)]
pub struct RouteError<R> {
    pub kind: RouteErrorKind,
    pub request: R,
}

impl<R> RouteError<R> {
    pub fn new(kind: RouteErrorKind, req: R) -> (error: Self)
        ensures
            error.kind == kind,
            error.request == req,
    {
        Self { kind, request: req }
    }

    /// No route matches the path of `req`.
    pub fn not_found(req: R) -> (error: Self)
        ensures
            error.kind == RouteErrorKind::NotFound,
            error.request == req,
    {
        Self::new(RouteErrorKind::NotFound, req)
    }

    /// No service answers the method of `req`.
    pub fn method_not_allowed(req: R) -> (error: Self)
        ensures
            error.kind == RouteErrorKind::MethodNotAllowed,
            error.request == req,
    {
        Self::new(RouteErrorKind::MethodNotAllowed, req)
    }

    pub fn kind(&self) -> (kind: RouteErrorKind)
        ensures
            kind == self.kind,
    {
        self.kind
    }

    /// The request, to be changed in place.
    pub fn request_mut(&mut self) -> (req: &mut R)
        ensures
            *req == old(self).request,
            final(self).request == *final(req),
            final(self).kind == old(self).kind,
    {
        &mut self.request
    }

    /// Gives the request back.
    pub fn into_request(self) -> (req: R)
        ensures
            req == self.request,
    {
        self.request
    }

    /// The description of the failure.
    pub fn message(&self) -> (text: String)
        ensures
            text@ == (match self.kind {
                RouteErrorKind::NotFound => "Not Found"@,
                RouteErrorKind::MethodNotAllowed => "Method Not Allowed"@,
            }),
    {
        self.kind.message()
    }
}

/// Why a routed call failed: no service answered the request, which can
/// then be taken back out, or the service that answered failed.
#[derive(Debug)]
pub enum RouteFailure<R> {
    /// No service answered. The request is inside.
    Route(RouteError<R>),
    /// The service that answered failed.
    Service(BoxError),
}

impl<R> RouteFailure<R> {
    /// The reason, where no service answered.
    pub fn kind(&self) -> (kind: Option<RouteErrorKind>)
        ensures
            kind == (match self {
                RouteFailure::Route(error) => Some(error.kind),
                RouteFailure::Service(_) => None,
            }),
    {
        match self {
            RouteFailure::Route(error) => Some(error.kind),
            RouteFailure::Service(_) => None,
        }
    }

    /// Gives the request back, where no service answered. A request that a
    /// service took is gone with the call.
    pub fn into_request(self) -> (req: Option<R>)
        ensures
            req == (match self {
                RouteFailure::Route(error) => Some(error.request),
                RouteFailure::Service(_) => None,
            }),
    {
        match self {
            RouteFailure::Route(error) => Some(error.request),
            RouteFailure::Service(_) => None,
        }
    }

    /// The description of the failure.
    pub fn message(&self) -> (text: String)
        ensures
            match self {
                RouteFailure::Route(error) => text@ == (match error.kind {
                    RouteErrorKind::NotFound => "Not Found"@,
                    RouteErrorKind::MethodNotAllowed => "Method Not Allowed"@,
                }),
                RouteFailure::Service(BoxError::DataTooLarge) => text@ == "data too large"@,
                RouteFailure::Service(BoxError::Other(message)) => text@ == message@,
            },
    {
        match self {
            RouteFailure::Route(error) => error.message(),
            RouteFailure::Service(error) => error.message(),
        }
    }
}

/// Why a route could not be registered.
#[derive(Debug)]
pub enum RouterError {
    /// The path, or one of its methods, is taken already.
    Conflict { path: String, message: String },
    /// The path is not one a route can have.
    InvalidPath { path: String, message: String },
    /// There are no route numbers left.
    TooManyPath,
}

impl RouterError {
    /// The failure of a router to take `path` in. `conflict` tells whether
    /// the path collides with one that is registered; any other failure
    /// means that the path is not one a route can have. `message` is the
    /// description that the router gave.
    pub fn from_insert_error(path: String, conflict: bool, message: String) -> (error: Self)
        ensures
            error == (if conflict {
                RouterError::Conflict { path, message }
            } else {
                RouterError::InvalidPath { path, message }
            }),
    {
        if conflict {
            RouterError::Conflict { path, message }
        } else {
            RouterError::InvalidPath { path, message }
        }
    }

    /// The failure for a path that is registered as a route and as a scope.
    pub fn route_conflict(path: String) -> (error: Self)
        ensures
            error matches RouterError::Conflict { path: p, message } && p == path && message@
                == "conflict with previously registered route"@,
    {
        RouterError::Conflict {
            path,
            message: "conflict with previously registered route".to_string(),
        }
    }

    /// The description of the failure: `conflict path`, or `invalid path`,
    /// with the path and, in brackets, the reason; or `too many path`.
    pub fn message(&self) -> (text: String)
        ensures
            text@ == (match self {
                RouterError::Conflict { path, message } => "conflict path "@ + path@ + " ("@
                    + message@ + ")"@,
                RouterError::InvalidPath { path, message } => "invalid path "@ + path@ + " ("@
                    + message@ + ")"@,
                RouterError::TooManyPath => "too many path"@,
            }),
    {
        match self {
            RouterError::Conflict { path, message } => {
                let mut text = "conflict path ".to_string();
                text.push_str(path.as_str());
                text.push_str(" (");
                text.push_str(message.as_str());
                text.push_str(")");
                text
            },
            RouterError::InvalidPath { path, message } => {
                let mut text = "invalid path ".to_string();
                text.push_str(path.as_str());
                text.push_str(" (");
                text.push_str(message.as_str());
                text.push_str(")");
                text
            },
            RouterError::TooManyPath => "too many path".to_string(),
        }
    }

    /// Whether this is a conflict with what is registered.
    pub fn is_conflict(&self) -> (b: bool)
        ensures
            b == (*self is Conflict),
    {
        match self {
            RouterError::Conflict { .. } => true,
            _ => false,
        }
    }
}

} // verus!
