//! The JSON bodies that the service sends: one object with one string field.
use vstd::prelude::*;
use vstd::string::StringExecFns;

verus! {

/// The compact JSON string literal of `s`, quotes and escapes included, as
/// serde_json writes it.
pub uninterp spec fn json_quoted(s: Seq<char>) -> Seq<char>;

/// Relies on serde_json's `Display` for `Value::String`: it writes the
/// compact JSON string literal of the value, and depends on it alone.
#[verifier::external_body]
fn quote_json(s: &str) -> (r: String)
    ensures
        r@ == json_quoted(s@),
{
    serde_json::Value::String(s.to_string()).to_string()
}

/// An object with one field, from its key and value already written as JSON.
pub open spec fn object_text(key_json: Seq<char>, value_json: Seq<char>) -> Seq<char> {
    "{"@ + key_json + ":"@ + value_json + "}"@
}

/// Frames a one-field object around a key and a value already written as JSON.
pub fn frame_object(key_json: &str, value_json: &str) -> (r: String)
    ensures
        r@ == object_text(key_json@, value_json@),
{
    let r = String::from_str("{");
    let r = r.concat(key_json);
    let r = r.concat(":");
    let r = r.concat(value_json);
    r.concat("}")
}

/// The compact JSON object `{"<key>":"<value>"}`.
pub open spec fn string_field_object(key: Seq<char>, value: Seq<char>) -> Seq<char> {
    object_text(json_quoted(key), json_quoted(value))
}

/// Writes the compact JSON object with the one string field `key: value`.
pub fn string_field_object_json(key: &str, value: &str) -> (r: String)
    ensures
        r@ == string_field_object(key@, value@),
{
    let k = quote_json(key);
    let v = quote_json(value);
    frame_object(k.as_str(), v.as_str())
}

} // verus!
