//! Reading JSON text. The grammar is serde_json's: this module holds what is
//! taken on trust from it.

use crate::json::{JsonNumber, JsonValue, JsonView};
use serde_json::Value;
use vstd::prelude::*;

verus! {

/// serde_json's document tree, opaque here.
#[verifier::external_type_specification]
#[verifier::external_body]
pub struct ExValue(serde_json::Value);

/// serde_json's report of a text that it could not read, opaque here.
#[verifier::external_type_specification]
#[verifier::external_body]
pub struct ExError(serde_json::Error);

/// The document that a text is, by serde_json's reading of JSON; `None` for
/// a text that it does not accept.
pub uninterp spec fn json_document(text: Seq<char>) -> Option<JsonView>;

/// The document that one of serde_json's trees holds.
pub uninterp spec fn held_document(tree: Value) -> JsonView;

/// Calls `serde_json::from_str` for a `serde_json::Value`.
///
/// Taken on trust: the call reads the whole text or fails, and what it
/// returns depends on the text alone, so that the outcome has a name.
#[verifier::external_body]
pub(crate) fn read_tree(text: &str) -> (out: Result<Value, serde_json::Error>)
    ensures
        match out {
            Ok(tree) => json_document(text@) == Some(held_document(tree)),
            Err(_) => json_document(text@) is None,
        },
{
    serde_json::from_str::<Value>(text)
}

/// Takes one of serde_json's trees apart, variant by variant
/// (`Number::as_u64`, `Number::as_i64` and the number's `to_string` tell the
/// three kinds of number apart).
///
/// Taken on trust: the result holds what the tree held, which is what the
/// name `held_document` stands for.
#[verifier::external_body]
pub(crate) fn tree_value(tree: Value) -> (out: JsonValue)
    ensures
        out@ == held_document(tree),
{
    match tree {
        Value::Null => JsonValue::Null,
        Value::Bool(b) => JsonValue::Bool(b),
        Value::Number(n) => JsonValue::Number(match (n.as_u64(), n.as_i64()) {
            (Some(u), _) => JsonNumber::Unsigned(u),
            (_, Some(i)) => JsonNumber::Signed(i),
            _ => JsonNumber::Real(n.to_string()),
        }),
        Value::String(s) => JsonValue::Text(s),
        Value::Array(a) => JsonValue::Array(a.into_iter().map(tree_value).collect()),
        Value::Object(m) => JsonValue::Object(
            m.into_iter().map(|(k, v)| (k, tree_value(v))).collect(),
        ),
    }
}

/// Calls `to_string` on serde_json's error: its message with line and column.
#[verifier::external_body]
pub(crate) fn error_message(error: &serde_json::Error) -> (message: String) {
    error.to_string()
}

/// Reads a text as a JSON document.
pub fn read_json(text: &str) -> (out: Result<JsonValue, String>)
    ensures
        match out {
            Ok(value) => json_document(text@) == Some(value@),
            Err(_) => json_document(text@) is None,
        },
{
    match read_tree(text) {
        Ok(tree) => Ok(tree_value(tree)),
        Err(error) => Err(error_message(&error)),
    }
}

} // verus!
