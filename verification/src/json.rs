//! Trusted boundary to the serde_json crate: the opaque item value type and
//! the encode/decode calls the store is built on.
//!
//! serde_json's serializer, parser and clone walk values recursively, so
//! nesting far beyond the parser's recursion bound (flat task lists are
//! nowhere near it) cannot be handled; the store's write path re-parses the
//! text it produced, turning an over-deep collection into a format error
//! instead of content that could never be read back.

use vstd::prelude::*;

use crate::collection::{entries_map, unique_keys};

verus! {

/// serde_json's dynamic JSON value: the store's opaque item type. The store
/// carries such values through without reading them.
#[verifier::external_type_specification]
#[verifier::external_body]
pub struct ExValue(serde_json::Value);

/// Relies on serde_json's derived `Clone` for `Value`: the copy equals the
/// value cloned.
pub assume_specification[ <serde_json::Value as Clone>::clone ](
    v: &serde_json::Value,
) -> (r: serde_json::Value)
    ensures
        r == *v,
;

/// What `serde_json::from_str` makes of a piece of text when asked for a map
/// of `String` to `Value`: `None` where the text is not such a JSON object,
/// and the object's entries otherwise.
pub uninterp spec fn parse_store(s: Seq<char>) -> Option<Map<Seq<char>, serde_json::Value>>;

/// The text `serde_json::to_string_pretty` produces for a map of `String`
/// to `Value`: a function of the mapping alone, since entries are emitted
/// in key order.
pub uninterp spec fn pretty_text(m: Map<Seq<char>, serde_json::Value>) -> Seq<char>;

/// The `Value` that serde_json's `Value::String` constructor makes of a
/// piece of text.
pub uninterp spec fn string_value(s: Seq<char>) -> serde_json::Value;

/// The `Value` that serde_json's `Value::Object` constructor makes of an
/// object's entries.
pub uninterp spec fn object_value(m: Map<Seq<char>, serde_json::Value>) -> serde_json::Value;

/// Relies on `serde_json::from_str` for `Map<String, Value>`: it succeeds
/// exactly on text holding a JSON object — never on the empty text — and
/// returns that object's entries, each key once.
#[verifier::external_body]
pub(crate) fn parse_entries(s: &str) -> (r: Result<Vec<(String, serde_json::Value)>, String>)
    ensures
        r is Ok <==> parse_store(s@) is Some,
        r matches Ok(v) ==> unique_keys(v@) && Some(entries_map(v@)) == parse_store(s@),
        s@.len() == 0 ==> r is Err,
{
    let m: serde_json::Map<String, serde_json::Value> =
        serde_json::from_str(s).map_err(|e| format!("Error parsing JSON: {}", e))?;
    Ok(m.into_iter().collect())
}

/// Relies on `serde_json::to_string_pretty` for `Map<String, Value>`: it has
/// no failing path on a string-keyed map of JSON values (its writer is an
/// in-memory buffer and value serialization raises no error), its text is a
/// function of the map alone, and text of its that `from_str` accepts reads
/// back as exactly the map serialized — exact for numbers too, with the
/// crate's float handling set to round-trip precision.
#[verifier::external_body]
pub(crate) fn serialize_entries(
    entries: &Vec<(String, serde_json::Value)>,
) -> (r: Result<String, String>)
    requires
        unique_keys(entries@),
    ensures
        r is Ok,
        r matches Ok(s) ==> s@ == pretty_text(entries_map(entries@)),
        r matches Ok(s) ==> (parse_store(s@) is Some ==> parse_store(s@) == Some(
            entries_map(entries@),
        )),
{
    let m: serde_json::Map<String, serde_json::Value> =
        entries.iter().map(|p| (p.0.clone(), p.1.clone())).collect();
    serde_json::to_string_pretty(&m).map_err(|e| format!("Error serializing JSON: {}", e))
}

/// Relies on serde_json's `Value::String` constructor: the value it builds is
/// determined by the text alone.
#[verifier::external_body]
pub(crate) fn make_string_value(s: String) -> (r: serde_json::Value)
    ensures
        r == string_value(s@),
{
    serde_json::Value::String(s)
}

/// Relies on serde_json's `Value::Object` constructor over a collected
/// `Map<String, Value>`: the value it builds is determined by the entries
/// alone.
#[verifier::external_body]
pub(crate) fn make_object_value(pairs: Vec<(String, serde_json::Value)>) -> (r: serde_json::Value)
    requires
        unique_keys(pairs@),
    ensures
        r == object_value(entries_map(pairs@)),
{
    serde_json::Value::Object(pairs.into_iter().collect())
}

} // verus!
