//! The calls into `serde_json`.
//!
//! Nothing in this file is proved: each contract says what the library takes
//! on trust from the JSON parser and writer.

use vstd::prelude::*;
use crate::json::{quoted, Json, JsonView, Member};

verus! {

/// `serde_json::Value`: a parsed JSON value, opaque to the proofs.
#[verifier::external_type_specification]
#[verifier::external_body]
pub struct ExValue(serde_json::Value);

/// `serde_json::Error`: what the parser reports of a text that it refuses.
#[verifier::external_type_specification]
#[verifier::external_body]
pub struct ExError(serde_json::Error);

/// The JSON value that a text stands for, or `None` where the parser refuses
/// the text. The grammar is the parser's own: nothing is stated of it here.
pub uninterp spec fn parsed(text: Seq<char>) -> Option<JsonView>;

/// The tree that a parsed value holds.
pub uninterp spec fn value_tree(value: serde_json::Value) -> JsonView;

/// Calls `serde_json::from_str` for a `serde_json::Value`.
///
/// Taken on trust: the outcome depends on the text alone. Whether the parser
/// accepts the text, and the tree of the value it returns, have the names
/// `parsed` and `value_tree`.
#[verifier::external_body]
pub(crate) fn parse_value(text: &str) -> (result: Result<serde_json::Value, serde_json::Error>)
    ensures
        match result {
            Ok(value) => parsed(text@) == Some(value_tree(value)),
            Err(_) => parsed(text@) is None,
        },
{
    serde_json::from_str::<serde_json::Value>(text)
}

/// Moves a `serde_json::Value` into a tree of the library, variant by variant.
///
/// A number is taken as the literal that `serde_json::Number` displays, the
/// members of an object in the order in which `serde_json::Map` hands them
/// out. Taken on trust: the tree that comes out is the one named `value_tree`.
#[verifier::external_body]
pub(crate) fn tree_of_value(value: serde_json::Value) -> (tree: Json)
    ensures
        tree@ == value_tree(value),
{
    match value {
        serde_json::Value::Null => Json::Null,
        serde_json::Value::Bool(b) => Json::Bool(b),
        serde_json::Value::Number(number) => Json::Number(number.to_string()),
        serde_json::Value::String(text) => Json::Text(text),
        serde_json::Value::Array(items) => Json::List(
            items.into_iter().map(tree_of_value).collect(),
        ),
        serde_json::Value::Object(map) => Json::Object(
            map.into_iter().map(|(key, value)| Member { key, value: tree_of_value(value) }).collect(),
        ),
    }
}

/// Calls `serde_json::to_string` on a string.
///
/// Taken on trust: the call does not fail on a string, and its result is the
/// string between quotes with the escapes that `quoted` states.
#[verifier::external_body]
pub(crate) fn quote(text: &str) -> (result: String)
    ensures
        result@ == quoted(text@),
{
    serde_json::to_string(text).unwrap_or_default()
}

} // verus!
