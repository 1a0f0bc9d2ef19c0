//! Read access to JSON documents parsed by serde_json, stated over a
//! mathematical model of JSON values.

use vstd::prelude::*;

verus! {

/// A JSON document as a mathematical value.
pub enum JsonSpec {
    Null,
    Bool(bool),
    Number,
    Text(Seq<char>),
    Array(Seq<JsonSpec>),
    Object(Map<Seq<char>, JsonSpec>),
}

#[verifier::external_type_specification]
#[verifier::external_body]
pub struct ExValue(serde_json::Value);

#[verifier::external_type_specification]
#[verifier::external_body]
pub struct ExJsonError(serde_json::Error);

/// The document that serde_json reads from a text, or `None` where the text
/// is not JSON.
pub uninterp spec fn json_reading(s: Seq<char>) -> Option<JsonSpec>;

/// What a parsed serde_json value holds.
pub uninterp spec fn json_view(v: serde_json::Value) -> JsonSpec;

/// The JSON string literal that serde_json writes for a text (quotes and escapes).
pub uninterp spec fn json_string_of(s: Seq<char>) -> Seq<char>;

/// Relies on `serde_json::from_str::<Value>`: the document read from `text`,
/// or an error exactly where `text` is not JSON.
#[verifier::external_body]
pub(crate) fn parse_json(text: &str) -> (r: Result<serde_json::Value, serde_json::Error>)
    ensures
        match r {
            Ok(v) => json_reading(text@) == Some(json_view(v)),
            Err(_) => json_reading(text@) is None,
        },
{
    serde_json::from_str(text)
}

/// Relies on `serde_json::Value::get` with a `&str` index: the member of an
/// object under `key`, and `None` for a missing key or a value that is not an
/// object.
#[verifier::external_body]
pub(crate) fn member<'a>(v: &'a serde_json::Value, key: &str) -> (r: Option<&'a serde_json::Value>)
    ensures
        match json_view(*v) {
            JsonSpec::Object(m) => match r {
                Some(x) => m.contains_key(key@) && json_view(*x) == m[key@],
                None => !m.contains_key(key@),
            },
            _ => r is None,
        },
{
    v.get(key)
}

/// Relies on `serde_json::Value::as_str`: the text of a string value.
pub assume_specification[ serde_json::Value::as_str ](v: &serde_json::Value) -> (r: Option<&str>)
    ensures
        match json_view(*v) {
            JsonSpec::Text(s) => r is Some && r.unwrap()@ == s,
            _ => r is None,
        },
;

/// Relies on `serde_json::Value::is_null`.
pub assume_specification[ serde_json::Value::is_null ](v: &serde_json::Value) -> (r: bool)
    ensures
        r == (json_view(*v) is Null),
;

/// Relies on `serde_json::Value::is_object`.
pub assume_specification[ serde_json::Value::is_object ](v: &serde_json::Value) -> (r: bool)
    ensures
        r == (json_view(*v) is Object),
;

/// Relies on `serde_json::Value::as_array`: the items of an array value, in
/// order.
pub assume_specification[ serde_json::Value::as_array ](v: &serde_json::Value) -> (r: Option<&Vec<serde_json::Value>>)
    ensures
        match json_view(*v) {
            JsonSpec::Array(items) => r is Some && r.unwrap()@.len() == items.len() && (forall|i: int|
                0 <= i < items.len() ==> json_view(#[trigger] r.unwrap()@[i]) == items[i]),
            _ => r is None,
        },
;

/// Relies on `serde_json::to_string` on a `&str`: the quoted and escaped
/// literal. Writing a string into a byte buffer cannot fail, so the error arm
/// of its result never occurs.
#[verifier::external_body]
pub(crate) fn quote_json(s: &str) -> (r: String)
    ensures
        r@ == json_string_of(s@),
{
    serde_json::to_string(s).unwrap_or_default()
}

} // verus!
