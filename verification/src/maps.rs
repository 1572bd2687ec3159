//! The insertion-ordered maps (`indexmap::IndexMap`) that options and
//! observed properties arrive in, and the reads the library makes of them.
use vstd::prelude::*;
use indexmap::IndexMap;
use crate::format::MpvFormat;
use crate::json::{JsonValue, JsonView};

verus! {

/// `indexmap::IndexMap`, declared so that signatures can name it; its
/// contents are read only through the functions below.
#[verifier::external_type_specification]
#[verifier::external_body]
#[verifier::reject_recursive_types(K)]
#[verifier::reject_recursive_types(V)]
#[verifier::reject_recursive_types(S)]
pub struct ExIndexMap<K, V, S>(IndexMap<K, V, S>);

/// The entries of an option map, in their order: each name with the view of
/// its value.
pub uninterp spec fn option_entries(m: IndexMap<String, JsonValue>) -> Seq<(Seq<char>, JsonView)>;

/// The entries of a map of observed properties, in their order: each name
/// with the format it is to be reported in.
pub uninterp spec fn format_entries(m: IndexMap<String, MpvFormat>) -> Seq<(Seq<char>, MpvFormat)>;

/// Number of entries of an option map (`IndexMap::len`).
/// Claimed: it is the length of `option_entries`.
#[verifier::external_body]
pub(crate) fn option_count(m: &IndexMap<String, JsonValue>) -> (n: usize)
    ensures
        n == option_entries(*m).len(),
{
    m.len()
}

/// The entry at a position of an option map (`IndexMap::get_index`).
/// Claimed: present exactly for positions below the length, and then it is
/// that entry of `option_entries`.
#[verifier::external_body]
pub(crate) fn option_at(m: &IndexMap<String, JsonValue>, i: usize) -> (r: Option<(&String, &JsonValue)>)
    ensures
        r is Some <==> i < option_entries(*m).len(),
        r matches Some(p) ==> p.0@ == option_entries(*m)[i as int].0 && p.1@ == option_entries(
            *m,
        )[i as int].1,
{
    m.get_index(i)
}

/// Number of entries of a map of observed properties (`IndexMap::len`).
/// Claimed: it is the length of `format_entries`.
#[verifier::external_body]
pub(crate) fn format_count(m: &IndexMap<String, MpvFormat>) -> (n: usize)
    ensures
        n == format_entries(*m).len(),
{
    m.len()
}

/// The entry at a position of a map of observed properties
/// (`IndexMap::get_index`). Claimed: present exactly for positions below the
/// length, and then it is that entry of `format_entries`.
#[verifier::external_body]
pub(crate) fn format_at(m: &IndexMap<String, MpvFormat>, i: usize) -> (r: Option<(&String, &MpvFormat)>)
    ensures
        r is Some <==> i < format_entries(*m).len(),
        r matches Some(p) ==> p.0@ == format_entries(*m)[i as int].0 && *p.1 == format_entries(
            *m,
        )[i as int].1,
{
    m.get_index(i)
}

} // verus!
