//! Trusted interface to the JSON values carried in extension blocks.
//!
//! Extension blocks and extras are open-ended JSON data that the schema does
//! not model: the library carries them through verbatim and never looks
//! inside a value. The map type and the value type are declared opaque, and
//! the one lookup the library performs goes through a thin wrapper whose
//! contract speaks of the map's entries.

use vstd::prelude::*;

verus! {

/// Declares serde_json::Value as an opaque type: the library stores and
/// hands back such values, never inspecting them.
#[verifier::external_type_specification]
#[verifier::external_body]
pub struct ExValue(serde_json::Value);

/// Declares serde_json::Map as an opaque type: the key-to-value mapping an
/// extension block is parsed into.
#[verifier::external_type_specification]
#[verifier::external_body]
#[verifier::reject_recursive_types(K)]
#[verifier::reject_recursive_types(V)]
pub struct ExMap<K, V>(serde_json::Map<K, V>);

/// The entries of an extension block, as a mapping from key characters to
/// the stored values.
pub uninterp spec fn ext_entries(
    m: serde_json::Map<String, serde_json::Value>,
) -> Map<Seq<char>, serde_json::Value>;

/// Relies on serde_json::Map::get: exact-key lookup, returning a borrow of
/// the stored value when the key is present and nothing otherwise.
#[verifier::external_body]
pub(crate) fn map_get<'a>(
    m: &'a serde_json::Map<String, serde_json::Value>,
    key: &str,
) -> (r: Option<&'a serde_json::Value>)
    ensures
        match r {
            Some(v) => ext_entries(*m).dom().contains(key@) && *v == ext_entries(*m)[key@],
            None => !ext_entries(*m).dom().contains(key@),
        },
{
    m.get(key)
}

} // verus!
