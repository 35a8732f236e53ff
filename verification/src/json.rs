//! Trusted boundary to serde_json.
//!
//! The remote metadata and the configuration file arrive as JSON text.
//! Parsing is serde_json's job; this module declares its `Value` type and
//! wraps the two calls the library makes. What a parsed object holds is
//! modelled by the uninterpreted `json_fields`, and the schema decisions
//! made over it are verified in the `config` and `picture` modules.

use vstd::prelude::*;

verus! {

#[verifier::external_type_specification]
#[verifier::external_body]
pub struct ExValue(serde_json::Value);

/// The string-valued fields of a parsed JSON object: for each key present in
/// the object, the value's characters when the value is a string, and `None`
/// when it is of another type.
pub uninterp spec fn json_fields(v: serde_json::Value) -> Map<Seq<char>, Option<Seq<char>>>;

/// The string held at `k`: `Some` exactly when the key is present and its
/// value is a string.
pub open spec fn str_field(f: Map<Seq<char>, Option<Seq<char>>>, k: Seq<char>) -> Option<
    Seq<char>,
> {
    if f.contains_key(k) && f[k] is Some {
        Some(f[k]->0)
    } else {
        None
    }
}

/// The string-valued fields of the JSON value that the text parses to:
/// `None` exactly when the text is not valid JSON. A function of the text
/// alone.
pub uninterp spec fn parsed_fields(text: Seq<char>) -> Option<Map<Seq<char>, Option<Seq<char>>>>;

/// Relies on serde_json::from_str: parses the text as one JSON value, `None`
/// when the text is not valid JSON; the parse is a function of the text
/// alone, and the parsed value's fields are the text's parsed fields.
#[verifier::external_body]
pub fn parse_json(text: &str) -> (r: Option<serde_json::Value>)
    ensures
        r is Some <==> parsed_fields(text@) is Some,
        r matches Some(v) ==> parsed_fields(text@) == Some(json_fields(v)),
{
    serde_json::from_str::<serde_json::Value>(text).ok()
}

/// Relies on serde_json::Value::get and Value::as_str: looks `key` up in the
/// object and hands the value back as an owned string when it is a string.
#[verifier::external_body]
pub fn get_string_field(v: &serde_json::Value, key: &str) -> (r: Option<String>)
    ensures
        r is Some <==> str_field(json_fields(*v), key@) is Some,
        r matches Some(s) ==> str_field(json_fields(*v), key@) == Some(s@),
{
    match v.get(key) {
        Some(field) => field.as_str().map(|s| s.to_string()),
        None => None,
    }
}

} // verus!
