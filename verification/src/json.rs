//! The one JSON serialisation the handlers need: a single-entry object
//! mapping a field name to its text value, produced by serde_json.

use vstd::prelude::*;

verus! {

/// The compact JSON text that a single-entry object of one string key
/// and one string value serialises to; a function of the key and the
/// value alone.
pub uninterp spec fn json_one_of(key: Seq<char>, value: Seq<char>) -> Seq<char>;

/// Characters that JSON writes into a string literal unescaped: anything
/// but `"`, `\` and control characters.
pub open spec fn json_plain(s: Seq<char>) -> bool {
    forall|i: int| 0 <= i < s.len() ==> s[i] != '"' && s[i] != '\\' && (s[i] as u32) >= 32
}

/// Relies on serde_json's `Display` for `Value`: a string-keyed object
/// writes as compact JSON, a function of the key and the value alone;
/// a key and value without `"`, `\` or control characters are written
/// verbatim between quotes.
#[verifier::external_body]
pub(crate) fn json_single(key: &str, value: &str) -> (r: String)
    ensures
        r@ == json_one_of(key@, value@),
        json_plain(key@) && json_plain(value@) ==> r@ == "{\""@ + key@ + "\":\""@ + value@
            + "\"}"@,
{
    let mut map = serde_json::Map::new();
    map.insert(key.to_string(), serde_json::Value::String(value.to_string()));
    serde_json::Value::Object(map).to_string()
}

} // verus!
