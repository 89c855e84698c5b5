//! The ordered header mapping of a transport descriptor.
//!
//! Headers are kept in an `indexmap::IndexMap`, which remembers the order in
//! which names were first inserted. Verus cannot look inside that type, so
//! its contents are given a name, [`header_entries`], and the two operations
//! used here are trusted to act on that name as the crate documents.

use indexmap::IndexMap;
use vstd::prelude::*;

verus! {

/// Makes `indexmap::IndexMap` known to the verifier as an opaque type.
#[verifier::external_type_specification]
#[verifier::external_body]
#[verifier::reject_recursive_types(K)]
#[verifier::reject_recursive_types(V)]
#[verifier::reject_recursive_types(S)]
pub struct ExIndexMap<K, V, S>(IndexMap<K, V, S>);

/// The `(name, value)` pairs that a header mapping holds, in insertion order.
pub uninterp spec fn header_entries(headers: IndexMap<String, String>) -> Seq<(Seq<char>, Seq<char>)>;

/// Whether some entry of `entries` carries the header name `name`.
pub open spec fn has_header(entries: Seq<(Seq<char>, Seq<char>)>, name: Seq<char>) -> bool {
    exists|i: int| 0 <= i < entries.len() && (#[trigger] entries[i]).0 == name
}

/// Trusted: `IndexMap::new` returns a mapping without entries.
#[verifier::external_body]
pub(crate) fn new_headers() -> (headers: IndexMap<String, String>)
    ensures
        header_entries(headers) == Seq::<(Seq<char>, Seq<char>)>::empty(),
{
    IndexMap::new()
}

/// Trusted: `IndexMap::insert` on string keys. A name not yet present is
/// appended as the last entry and `None` is returned. A name already present
/// keeps its position, takes the new value, and the value it had before is
/// returned.
#[verifier::external_body]
pub(crate) fn insert_header(
    headers: &mut IndexMap<String, String>,
    name: String,
    value: String,
) -> (previous: Option<String>)
    ensures
        !has_header(header_entries(*old(headers)), name@) ==> previous is None && header_entries(
            *final(headers),
        ) == header_entries(*old(headers)).push((name@, value@)),
        forall|i: int|
            0 <= i < header_entries(*old(headers)).len() && (#[trigger] header_entries(
                *old(headers),
            )[i]).0 == name@ ==> previous is Some && previous->0@ == header_entries(
                *old(headers),
            )[i].1 && header_entries(*final(headers)) == header_entries(*old(headers)).update(
                i,
                (name@, value@),
            ),
{
    headers.insert(name, value)
}

} // verus!
