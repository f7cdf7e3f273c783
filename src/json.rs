//! The calls into `serde_json` that the library relies on.

use vstd::prelude::*;

verus! {

/// The JSON string literal that `serde_json` writes for a piece of text:
/// the text between double quotes, with the characters that JSON requires
/// escaped.
pub uninterp spec fn json_string_of(s: Seq<char>) -> Seq<char>;

#[verifier::external_type_specification]
#[verifier::external_body]
pub struct ExJsonError(serde_json::Error);

/// Relies on `serde_json::to_string` applied to a `str`: it writes the text
/// as one JSON string literal into an in-memory buffer, which cannot fail.
#[verifier::external_body]
pub(crate) fn json_string(s: &str) -> (r: Result<String, serde_json::Error>)
    ensures
        r is Ok,
        r matches Ok(t) ==> t@ == json_string_of(s@),
{
    serde_json::to_string(s)
}

/// A JSON value as the word list reads it. Numbers are told apart from the
/// other kinds only; an object maps each member name to its value.
pub enum JsonTree {
    Null,
    Bool(bool),
    Number,
    Str(Seq<char>),
    Array(Seq<JsonTree>),
    Object(Map<Seq<char>, JsonTree>),
}

#[verifier::external_type_specification]
#[verifier::external_body]
pub struct ExJsonValue(serde_json::Value);

/// What a `serde_json::Value` holds.
pub uninterp spec fn tree_of(v: serde_json::Value) -> JsonTree;

/// The document that `serde_json` reads from a text, if the text is one.
pub uninterp spec fn document_of(text: Seq<char>) -> Option<JsonTree>;

/// Relies on `serde_json::from_str` into a `serde_json::Value`: reads one JSON
/// document, or fails on text that is not one.
#[verifier::external_body]
pub(crate) fn parse_json(text: &str) -> (r: Result<serde_json::Value, serde_json::Error>)
    ensures
        r is Ok <==> document_of(text@) is Some,
        r matches Ok(v) ==> document_of(text@) == Some(tree_of(v)),
{
    serde_json::from_str(text)
}

/// Relies on `serde_json::Error`'s `Display`: the parser's own description of
/// what went wrong and where.
#[verifier::external_body]
pub(crate) fn error_text(e: &serde_json::Error) -> (r: String) {
    e.to_string()
}

/// Takes the elements out of a JSON array (the `serde_json::Value::Array`
/// variant); `None` for any other kind of value.
#[verifier::external_body]
pub(crate) fn array_items(v: serde_json::Value) -> (r: Option<Vec<serde_json::Value>>)
    ensures
        match tree_of(v) {
            JsonTree::Array(items) => r matches Some(vs) && vs@.map_values(
                |x: serde_json::Value| tree_of(x),
            ) == items,
            _ => r is None,
        },
{
    match v {
        serde_json::Value::Array(items) => Some(items),
        _ => None,
    }
}

/// Relies on `serde_json::Value::is_object`: whether the value is a JSON object.
#[verifier::external_body]
pub(crate) fn is_object(v: &serde_json::Value) -> (r: bool)
    ensures
        r == (tree_of(*v) is Object),
{
    v.is_object()
}

/// Relies on `serde_json::Value::get` with a `str` key: the member of an
/// object under that name; `None` where there is none, or where the value
/// is not an object.
#[verifier::external_body]
pub(crate) fn member<'a>(v: &'a serde_json::Value, key: &str) -> (r: Option<&'a serde_json::Value>)
    ensures
        match tree_of(*v) {
            JsonTree::Object(m) => if m.contains_key(key@) {
                r matches Some(x) && tree_of(*x) == m[key@]
            } else {
                r is None
            },
            _ => r is None,
        },
{
    v.get(key)
}

/// Relies on `serde_json::Value::as_str`: the text of a JSON string, `None`
/// for any other kind of value.
#[verifier::external_body]
pub(crate) fn text_of(v: &serde_json::Value) -> (r: Option<String>)
    ensures
        match tree_of(*v) {
            JsonTree::Str(s) => r matches Some(t) && t@ == s,
            _ => r is None,
        },
{
    v.as_str().map(|t| t.to_string())
}

} // verus!
