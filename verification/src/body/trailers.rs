//! Trailing metadata: the header map of the `http` crate, as far as the
//! bodies here need it. The map itself is `http`'s; what is said of it below
//! is believed, not proved.

use http::header::{HeaderMap, HeaderValue};
use vstd::prelude::*;

verus! {

/// `http::HeaderMap`: a map from header names to one or more values each.
#[verifier::external_type_specification]
#[verifier::external_body]
#[verifier::reject_recursive_types(T)]
pub struct ExHeaderMap<T>(HeaderMap<T>);

/// `http::HeaderValue`: the bytes of one header value.
#[verifier::external_type_specification]
#[verifier::external_body]
pub struct ExHeaderValue(HeaderValue);

/// What a header map holds: for each name in it (its bytes, which `http`
/// keeps in lower case) the values under that name, in the order they were
/// added.
pub uninterp spec fn header_entries(map: HeaderMap<HeaderValue>) -> Map<Seq<u8>, Seq<Seq<u8>>>;

/// How many names two trailer maps may hold together when one is merged
/// into the other. `http`'s table holds at most 32768 slots and panics when
/// it would have to grow beyond them. It grows when three quarters of its
/// slots hold a name and, once it suspects colliding names, as soon as a
/// fifth of them do; a fifth of 32768 slots is more than this many names.
pub const MAX_TRAILER_NAMES: usize = 6553;

/// The trailers that result from merging `more` into `into`: every name of
/// `more` comes with exactly the values it has in `more`, every other name
/// keeps its values.
pub open spec fn merged_entries(
    into: Map<Seq<u8>, Seq<Seq<u8>>>,
    more: Map<Seq<u8>, Seq<Seq<u8>>>,
) -> Map<Seq<u8>, Seq<Seq<u8>>> {
    into.union_prefer_right(more)
}

/// `HeaderMap::extend` with another map's items: it walks `more` name by
/// name, replaces whatever `into` held under that name by the values of
/// `more`, and leaves the other names alone.
#[verifier::external_body]
pub(crate) fn extend_trailers(into: &mut HeaderMap, more: HeaderMap)
    requires
        header_entries(*old(into)).dom().len() + header_entries(more).dom().len()
            <= MAX_TRAILER_NAMES,
    ensures
        header_entries(*final(into)) == merged_entries(
            header_entries(*old(into)),
            header_entries(more),
        ),
{
    into.extend(more)
}

/// `HeaderMap::is_empty`: whether the map holds no name.
#[verifier::external_body]
pub(crate) fn trailers_are_empty(map: &HeaderMap) -> (empty: bool)
    ensures
        empty == (header_entries(*map).dom() == Set::<Seq<u8>>::empty()),
{
    map.is_empty()
}

/// `HeaderMap::keys_len`: the number of names in the map.
#[verifier::external_body]
pub(crate) fn trailer_names(map: &HeaderMap) -> (names: usize)
    ensures
        names == header_entries(*map).dom().len(),
{
    map.keys_len()
}

} // verus!
