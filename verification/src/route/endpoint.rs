//! What is registered under one path: a route or a scope.

use crate::route::error::RouterError;
use crate::route::method::Method;
use crate::route::method_router::{MergeToMethodRouter, MethodRouter};
use vstd::prelude::*;

verus! {

/// What stands under a path: services for the path itself, or for
/// everything below it.
#[derive(Debug)]
pub enum Endpoint<T> {
    /// Services for the path itself.
    Route(T),
    /// Services for everything below the path.
    Scope(T),
}

impl<T> Endpoint<T> {
    /// Whether both are routes, or both are scopes.
    pub open spec fn same_kind<U>(&self, other: &Endpoint<U>) -> bool {
        (*self is Route) == (*other is Route)
    }

    /// What is held, whatever the kind.
    pub open spec fn inner(&self) -> T {
        match self {
            Endpoint::Route(inner) => *inner,
            Endpoint::Scope(inner) => *inner,
        }
    }

    /// The same kind around `inner`.
    pub fn like<U>(&self, inner: U) -> (out: Endpoint<U>)
        ensures
            self.same_kind(&out),
            out.inner() == inner,
    {
        match self {
            Endpoint::Route(_) => Endpoint::Route(inner),
            Endpoint::Scope(_) => Endpoint::Scope(inner),
        }
    }
}

/// The slot that a conflict is about: the name of the method, or `None`
/// for the claim to every method.
pub open spec fn conflict_slot(method: &Option<Method>) -> Option<Seq<char>> {
    match method {
        Some(method) => Some(method@),
        None => None,
    }
}

/// The description of a conflict on the method `name`, or, for `None`, on
/// the claim to every method.
pub open spec fn method_conflict_text(name: Option<Seq<char>>) -> Seq<char> {
    match name {
        Some(name) => "conflict with previously registered `"@ + name + "` HTTP method"@,
        None => "conflict with previously registered any HTTP method"@,
    }
}

/// Whether `res` is the failure to register a route where a scope stands,
/// or a scope where a route stands, under `path`.
pub open spec fn is_kind_conflict(res: Result<(), RouterError>, path: String) -> bool {
    res matches Err(RouterError::Conflict { path: p, message }) && p == path && message@
        == "conflict with previously registered route"@
}

/// The failure to register under `path` because `method`, or, for `None`,
/// the claim to every method, is taken there.
pub fn method_conflict(path: String, method: Option<Method>) -> (error: RouterError)
    ensures
        error matches RouterError::Conflict { path: p, message } && p == path && message@
            == method_conflict_text(conflict_slot(&method)),
{
    let message = match method {
        Some(method) => {
            let mut text = "conflict with previously registered `".to_string();
            text.push_str(method.as_str());
            text.push_str("` HTTP method");
            text
        },
        None => "conflict with previously registered any HTTP method".to_string(),
    };
    RouterError::Conflict { path, message }
}

impl<T> Endpoint<MethodRouter<T>> {
    /// Registers the services of `incoming` with what stands under `path`
    /// already. A route does not go with a scope, nor a scope with a
    /// route; and no method, nor the claim to every method, may be taken
    /// twice. On a failure nothing is registered.
    pub fn merge<M: MergeToMethodRouter<T>>(&mut self, path: String, incoming: Endpoint<M>) -> (res:
        Result<(), RouterError>)
        requires
            old(self).inner().wf(),
            incoming.inner().mergeable(),
        ensures
            final(self).inner().wf(),
            final(self).same_kind(old(self)),
            !old(self).same_kind(&incoming) ==> *final(self) == *old(self) && is_kind_conflict(
                res,
                path,
            ),
            old(self).same_kind(&incoming) ==> match res {
                Ok(()) => {
                    &&& forall|name: Seq<char>| !(#[trigger] incoming.inner().claims(Some(name))
                        && old(self).inner().keys().contains(name))
                    &&& !(incoming.inner().claims(None) && old(self).inner().any is Some)
                    &&& incoming.inner().merged(old(self).inner(), final(self).inner())
                },
                Err(RouterError::Conflict { path: p, message }) => {
                    &&& p == path
                    &&& *final(self) == *old(self)
                    &&& exists|slot: Option<Seq<char>>|
                        {
                            &&& incoming.inner().claims(slot)
                            &&& match slot {
                                Some(name) => old(self).inner().keys().contains(name),
                                None => old(self).inner().any is Some,
                            }
                            &&& message@ == method_conflict_text(slot)
                        }
                },
                Err(_) => false,
            },
    {
        let result = match incoming {
            Endpoint::Route(service) => match self {
                Endpoint::Route(router) => service.merge_to(router),
                Endpoint::Scope(_) => {
                    return Err(RouterError::route_conflict(path));
                },
            },
            Endpoint::Scope(service) => match self {
                Endpoint::Scope(router) => service.merge_to(router),
                Endpoint::Route(_) => {
                    return Err(RouterError::route_conflict(path));
                },
            },
        };
        match result {
            Ok(()) => Ok(()),
            Err(method) => {
                proof {
                    assert(incoming.inner().claims(conflict_slot(&method)));
                }
                Err(method_conflict(path, method))
            },
        }
    }
}

} // verus!
