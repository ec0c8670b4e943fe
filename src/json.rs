//! A mathematical model of JSON documents, and the few `serde_json` operations
//! that the reply decoding reads, stated over that model.

use vstd::prelude::*;

verus! {

/// A JSON document as the reply decoding sees it.
///
/// Numbers are kept without their value: nothing here reads one.
pub enum JsonTree {
    Null,
    Bool(bool),
    Number,
    Str(Seq<char>),
    Array(Seq<JsonTree>),
    Object(Map<Seq<char>, JsonTree>),
}

#[verifier::external_type_specification]
#[verifier::external_body]
pub struct ExValue(serde_json::Value);

#[verifier::external_type_specification]
#[verifier::external_body]
pub struct ExJsonError(serde_json::Error);

/// The document that a `serde_json::Value` holds.
pub uninterp spec fn json_tree(v: serde_json::Value) -> JsonTree;

/// The document that `serde_json::from_str::<Value>` reads from a text, or
/// `None` where it reports an error.
pub uninterp spec fn parsed_json(text: Seq<char>) -> Option<JsonTree>;

/// Relies on `serde_json::from_str::<Value>`: it succeeds exactly on the texts
/// that it reads a document from, and the value holds that document.
#[verifier::external_body]
pub(crate) fn parse_json(text: &str) -> (r: Result<serde_json::Value, serde_json::Error>)
    ensures
        r is Ok <==> parsed_json(text@) is Some,
        r matches Ok(v) ==> parsed_json(text@) == Some(json_tree(v)),
{
    serde_json::from_str(text)
}

/// Relies on `serde_json::Value::get` with a `&str` index: the member of an
/// object under that key, and `None` for a missing key or a value that is not
/// an object.
#[verifier::external_body]
pub(crate) fn member<'a>(v: &'a serde_json::Value, key: &str) -> (r: Option<&'a serde_json::Value>)
    ensures
        r is Some <==> (json_tree(*v) is Object && json_tree(*v)->Object_0.contains_key(key@)),
        r matches Some(m) ==> json_tree(*m) == json_tree(*v)->Object_0[key@],
{
    v.get(key)
}

/// `serde_json::Value::as_str`: the text of a string value, `None` for any
/// other value.
pub assume_specification[ serde_json::Value::as_str ](v: &serde_json::Value) -> (r: Option<&str>)
    ensures
        r is Some <==> json_tree(*v) is Str,
        r matches Some(s) ==> json_tree(*v) == JsonTree::Str(s@),
;

/// `serde_json::Value::as_array`: the elements of an array value, `None` for
/// any other value.
pub assume_specification[ serde_json::Value::as_array ](v: &serde_json::Value) -> (r: Option<&Vec<serde_json::Value>>)
    ensures
        r is Some <==> json_tree(*v) is Array,
        r matches Some(a) ==> json_tree(*v) == JsonTree::Array(
            a@.map_values(|e: serde_json::Value| json_tree(e)),
        ),
;

} // verus!
