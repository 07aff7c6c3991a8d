//! The patterns that registered paths stand for, and the numbers of routes.

use crate::route::error::RouterError;
use vstd::prelude::*;
use vstd::string::StringSliceAdditionalSpecFns;

verus! {

/// The name under which a router keeps the rest of a path that a route
/// with a tail, or a scope, has matched.
pub const PRIVATE_TAIL_PARAM: &'static str = "__private__tail_param";

/// The number of a registered path.
#[derive(Debug, Clone, Copy, PartialEq, Eq, PartialOrd, Ord, Hash, Default)]
pub struct RouteId(pub u32);

impl RouteId {
    /// The number after this one, or `None` where there is none left.
    pub fn next(self) -> (next: Option<Self>)
        ensures
            next == (if self.0 < u32::MAX {
                Some(RouteId((self.0 + 1) as u32))
            } else {
                None
            }),
    {
        match self.0.checked_add(1) {
            Some(id) => Some(RouteId(id)),
            None => None,
        }
    }
}

/// Whether the bytes of a path start with `/`.
pub open spec fn starts_with_slash(path: Seq<u8>) -> bool {
    path.len() > 0 && path[0] == 0x2f
}

/// The pattern of the route registered under `path`: the path itself; a
/// path that ends in `*` gets the name of the tail behind the `*`.
pub open spec fn route_pattern_of(path: Seq<u8>) -> Seq<u8> {
    if path.len() > 0 && path.last() == 0x2a {
        path + PRIVATE_TAIL_PARAM.spec_bytes()
    } else {
        path
    }
}

/// The pattern of the scope registered under `path`: the path, a `/`
/// unless it ends in one, then `*` and the name of the tail.
pub open spec fn scope_pattern_of(path: Seq<u8>) -> Seq<u8> {
    if path.len() > 0 && path.last() == 0x2f {
        path + seq![0x2au8] + PRIVATE_TAIL_PARAM.spec_bytes()
    } else {
        path + seq![0x2fu8, 0x2au8] + PRIVATE_TAIL_PARAM.spec_bytes()
    }
}

/// The path and query of a request inside a scope: `/`, the tail that the
/// scope matched without a `/` it may start with, and, where there is a
/// query, `?` and the query.
pub open spec fn scoped_target_of(tail: Seq<u8>, query: Option<Seq<u8>>) -> Seq<u8> {
    let path = if starts_with_slash(tail) {
        tail.skip(1)
    } else {
        tail
    };
    match query {
        Some(query) => seq![0x2fu8] + path + seq![0x3fu8] + query,
        None => seq![0x2fu8] + path,
    }
}

/// Appends the bytes of `more` to `out`.
pub fn append_bytes(out: &mut Vec<u8>, more: &[u8])
    ensures
        final(out)@ == old(out)@ + more@,
{
    let mut i: usize = 0;
    while i < more.len()
        invariant
            i <= more@.len(),
            out@ == old(out)@ + more@.take(i as int),
        decreases more@.len() - i,
    {
        out.push(more[i]);
        i = i + 1;
        assert(out@ =~= old(out)@ + more@.take(i as int));
    }
    assert(more@.take(more@.len() as int) =~= more@);
}

/// Whether `error` says of `path` that it does not start with `/`.
pub open spec fn is_no_leading_slash(error: RouterError, path: Seq<char>) -> bool {
    error matches RouterError::InvalidPath { path: p, message } && p@ == path && message@
        == "path must start with a `/`"@
}

/// The failure for a path that does not start with `/`.
pub fn no_leading_slash(path: &str) -> (error: RouterError)
    ensures
        is_no_leading_slash(error, path@),
{
    RouterError::InvalidPath {
        path: path.to_owned(),
        message: "path must start with a `/`".to_string(),
    }
}

/// The pattern under which a route for `path` is registered, in bytes. A
/// path that does not start with `/` is refused.
pub fn route_pattern(path: &str) -> (out: Result<Vec<u8>, RouterError>)
    ensures
        match out {
            Ok(pattern) => starts_with_slash(path.spec_bytes()) && pattern@ == route_pattern_of(
                path.spec_bytes(),
            ),
            Err(error) => !starts_with_slash(path.spec_bytes()) && is_no_leading_slash(
                error,
                path@,
            ),
        },
{
    let bytes = path.as_bytes();
    if bytes.len() == 0 || bytes[0] != 0x2f {
        return Err(no_leading_slash(path));
    }
    let mut pattern: Vec<u8> = Vec::new();
    append_bytes(&mut pattern, bytes);
    if bytes[bytes.len() - 1] == 0x2a {
        append_bytes(&mut pattern, PRIVATE_TAIL_PARAM.as_bytes());
    }
    Ok(pattern)
}

/// The pattern under which a scope for `path` is registered, in bytes. A
/// path that does not start with `/` is refused.
pub fn scope_pattern(path: &str) -> (out: Result<Vec<u8>, RouterError>)
    ensures
        match out {
            Ok(pattern) => starts_with_slash(path.spec_bytes()) && pattern@ == scope_pattern_of(
                path.spec_bytes(),
            ),
            Err(error) => !starts_with_slash(path.spec_bytes()) && is_no_leading_slash(
                error,
                path@,
            ),
        },
{
    let bytes = path.as_bytes();
    if bytes.len() == 0 || bytes[0] != 0x2f {
        return Err(no_leading_slash(path));
    }
    let mut pattern: Vec<u8> = Vec::new();
    append_bytes(&mut pattern, bytes);
    if bytes[bytes.len() - 1] != 0x2f {
        pattern.push(0x2f);
    }
    pattern.push(0x2a);
    append_bytes(&mut pattern, PRIVATE_TAIL_PARAM.as_bytes());
    Ok(pattern)
}

/// The path and query that a request gets when it enters a scope that
/// matched `tail`, in bytes.
pub fn scoped_target(tail: &str, query: Option<&str>) -> (target: Vec<u8>)
    ensures
        target@ == scoped_target_of(
            tail.spec_bytes(),
            match query {
                Some(q) => Some(q.spec_bytes()),
                None => None,
            },
        ),
{
    let bytes = tail.as_bytes();
    let mut target: Vec<u8> = Vec::new();
    target.push(0x2f);
    if bytes.len() > 0 && bytes[0] == 0x2f {
        let rest = vstd::slice::slice_subrange(bytes, 1, bytes.len());
        assert(rest@ =~= bytes@.skip(1));
        append_bytes(&mut target, rest);
    } else {
        append_bytes(&mut target, bytes);
    }
    if let Some(q) = query {
        target.push(0x3f);
        append_bytes(&mut target, q.as_bytes());
    }
    target
}

/// Whether `name` is the name under which the tail of a path is kept.
pub open spec fn is_tail_name(name: &String) -> bool {
    name@ == PRIVATE_TAIL_PARAM@
}

/// The parameters of `params` that a request gets to see: all but the
/// tail, in their order.
pub open spec fn visible_params(params: Seq<(String, String)>) -> Seq<(String, String)>
    decreases params.len(),
{
    if params.len() == 0 {
        Seq::empty()
    } else if is_tail_name(&params.last().0) {
        visible_params(params.drop_last())
    } else {
        visible_params(params.drop_last()).push(params.last())
    }
}

/// The tail among `params`: the value of the last parameter that is named
/// as the tail is.
pub open spec fn tail_param(params: Seq<(String, String)>) -> Option<String>
    decreases params.len(),
{
    if params.len() == 0 {
        None
    } else if is_tail_name(&params.last().0) {
        Some(params.last().1)
    } else {
        tail_param(params.drop_last())
    }
}

/// Parts the parameters that a path matched into those that the request
/// gets to see, in their order, and the tail, which the router keeps to
/// itself.
pub fn split_tail(params: Vec<(String, String)>) -> (out: (Vec<(String, String)>, Option<String>))
    ensures
        out.0@ == visible_params(params@),
        out.1 == tail_param(params@),
{
    let ghost all = params@;
    let mut rest = params;
    let mut tail: Option<String> = None;
    let mut found = false;
    // The parameters are taken from the back, so what is seen is gathered
    // in reverse and turned round at the end.
    let mut reversed: Vec<(String, String)> = Vec::new();
    let tail_name = PRIVATE_TAIL_PARAM.to_owned();
    while rest.len() > 0
        invariant
            tail_name@ == PRIVATE_TAIL_PARAM@,
            visible_params(all) == visible_params(rest@) + reversed@.reverse(),
            !found ==> tail is None,
            tail_param(all) == (if found {
                tail
            } else {
                tail_param(rest@)
            }),
        decreases rest@.len(),
    {
        let ghost before = rest@;
        let (name, value) = rest.pop().unwrap();
        proof {
            assert(before.last() == (name, value));
            assert(before.drop_last() =~= rest@);
        }
        if name == tail_name {
            if !found {
                tail = Some(value);
                found = true;
            }
        } else {
            proof {
                assert(reversed@.push((name, value)).reverse() =~= seq![(name, value)]
                    + reversed@.reverse());
                assert(visible_params(rest@).push((name, value)) + reversed@.reverse()
                    =~= visible_params(rest@) + (seq![(name, value)] + reversed@.reverse()));
            }
            reversed.push((name, value));
        }
    }
    let mut visible: Vec<(String, String)> = Vec::new();
    while reversed.len() > 0
        invariant
            tail == tail_param(all),
            visible@ + reversed@.reverse() == visible_params(all),
        decreases reversed@.len(),
    {
        let ghost before = reversed@;
        let param = reversed.pop().unwrap();
        proof {
            assert(before.reverse() =~= seq![param] + reversed@.reverse());
            assert(visible@.push(param) + reversed@.reverse() =~= visible@ + before.reverse());
        }
        visible.push(param);
    }
    proof {
        assert(reversed@.reverse() =~= Seq::<(String, String)>::empty());
        assert(visible@ + Seq::<(String, String)>::empty() =~= visible@);
    }
    (visible, tail)
}

} // verus!
