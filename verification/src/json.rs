//! Whether a text is a JSON value.
use vstd::prelude::*;

verus! {

/// Whether a text is one JSON value, as `serde_json` reads it (its grammar,
/// with its limits, such as on nesting depth).
pub uninterp spec fn json_text_valid(text: Seq<char>) -> bool;

/// Checks a text with `serde_json::from_str` into a `serde_json::Value`.
///
/// Trusted: the result is whether `serde_json` accepts the text; it depends
/// on the text alone. What it accepts is left to `serde_json`'s grammar.
#[verifier::external_body]
pub(crate) fn serde_json_accepts(text: &str) -> (valid: bool)
    ensures
        valid == json_text_valid(text@),
{
    serde_json::from_str::<serde_json::Value>(text).is_ok()
}

/// Whether a byte string is one JSON value, as `serde_json` reads it.
pub uninterp spec fn json_bytes_valid(bytes: Seq<u8>) -> bool;

/// Checks bytes with `serde_json::from_slice` into a `serde_json::Value`.
///
/// Trusted: the result is whether `serde_json` accepts the bytes; it depends
/// on the bytes alone. What it accepts is left to `serde_json`'s grammar.
#[verifier::external_body]
pub(crate) fn serde_json_accepts_bytes(bytes: &[u8]) -> (valid: bool)
    ensures
        valid == json_bytes_valid(bytes@),
{
    serde_json::from_slice::<serde_json::Value>(bytes).is_ok()
}

/// The members of the JSON object that a byte string holds, as `serde_json`
/// reads it into a `serde_json::Map`: each key with its value written back as
/// compact JSON, in the map's order; `None` when the bytes are no JSON
/// object.
pub uninterp spec fn json_object_members(bytes: Seq<u8>) -> Option<Seq<(Seq<char>, Seq<u8>)>>;

/// Reads bytes with `serde_json::from_slice` into a `serde_json::Map` and
/// writes each value back with `serde_json::to_vec`.
///
/// Trusted: the result is the named result of the bytes; it depends on them
/// alone. Which bytes form an object, the order of the members and the text
/// of each value are left to `serde_json`.
#[verifier::external_body]
pub(crate) fn serde_json_object_members(bytes: &[u8]) -> (members: Option<Vec<(String, Vec<u8>)>>)
    ensures
        match members {
            Some(v) => json_object_members(bytes@) == Some(
                v@.map_values(|m: (String, Vec<u8>)| (m.0@, m.1@)),
            ),
            None => json_object_members(bytes@) is None,
        },
{
    serde_json::from_slice::<serde_json::Map<String, serde_json::Value>>(bytes).ok().map(|m| {
        m.into_iter().map(|(k, v)| (k, serde_json::to_vec(&v).unwrap_or_default())).collect()
    })
}

} // verus!
