//! JSON text, decoded by the `serde_json` crate into a tree of plain values.

use vstd::prelude::*;

verus! {

/// A JSON value.
#[derive(Debug, PartialEq, Eq)]
pub enum Json {
    Null,
    Bool(bool),
    /// A number, as the text that stands for it.
    Number(String),
    Text(String),
    List(Vec<Json>),
    /// The members of an object, each key once.
    Object(Vec<(String, Json)>),
}

#[verifier::external_type_specification]
#[verifier::external_body]
pub struct ExJsonValue(serde_json::Value);

/// What `serde_json::from_str` makes of `text`: nothing when it rejects the
/// text, else the value that it returns, as a tree.
pub uninterp spec fn decoded(text: Seq<char>) -> Option<Json>;

/// Copies a `serde_json::Value` into a tree, variant by variant. The members
/// of an object come in the order in which the crate's map hands them out.
///
/// Trusted: the copy returns. Nothing is claimed of the tree here.
#[verifier::external_body]
pub(crate) fn tree_of(value: &serde_json::Value) -> Json {
    match value {
        serde_json::Value::Null => Json::Null,
        serde_json::Value::Bool(b) => Json::Bool(*b),
        serde_json::Value::Number(n) => Json::Number(n.to_string()),
        serde_json::Value::String(s) => Json::Text(s.clone()),
        serde_json::Value::Array(items) => Json::List(items.iter().map(tree_of).collect()),
        serde_json::Value::Object(members) => Json::Object(
            members.iter().map(|(k, v)| (k.clone(), tree_of(v))).collect(),
        ),
    }
}

/// Calls `serde_json::from_str` for a `serde_json::Value` and copies the
/// value into a tree.
///
/// Trusted: the outcome depends on the text alone; it is `None` exactly when
/// the crate returns an error, and else the copy of the value.
#[verifier::external_body]
pub(crate) fn decode(text: &str) -> (r: Option<Json>)
    ensures
        r == decoded(text@),
{
    match serde_json::from_str::<serde_json::Value>(text) {
        Ok(value) => Some(tree_of(&value)),
        Err(_) => None,
    }
}

} // verus!
