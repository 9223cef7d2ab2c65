//! JSON values, as the `serde_json` crate reads and prints them.
//!
//! A value is opaque here. What the contracts speak of is its text: the
//! compact form in which `serde_json` prints it.

use vstd::prelude::*;

verus! {

/// `serde_json::Value`: any JSON value. Nothing inside it is seen here.
#[verifier::external_type_specification]
#[verifier::external_body]
pub struct ExJsonValue(serde_json::Value);

/// The compact text in which `serde_json` prints `value`.
pub uninterp spec fn json_text(value: serde_json::Value) -> Seq<char>;

/// The compact text of the value that `serde_json` reads from `bytes`, or
/// `None` where it reads none.
pub uninterp spec fn json_read(bytes: Seq<u8>) -> Option<Seq<char>>;

/// The text of the value that is read from `bytes`, with the text of the
/// null value standing in where none can be read.
pub open spec fn json_read_or_null(bytes: Seq<u8>) -> Seq<char> {
    match json_read(bytes) {
        Some(text) => text,
        None => "null"@,
    }
}

/// Reads a value with `serde_json::from_slice`. The reader is a function of
/// the bytes alone: whether it succeeds, and the text of what it read, are
/// named by [`json_read`].
#[verifier::external_body]
pub(crate) fn value_from_slice(bytes: &[u8]) -> (parsed: Option<serde_json::Value>)
    ensures
        match parsed {
            Some(value) => json_read(bytes@) == Some(json_text(value)),
            None => json_read(bytes@) is None,
        },
{
    serde_json::from_slice::<serde_json::Value>(bytes).ok()
}

/// Prints a value with its `Display` impl (`to_string`), which writes the
/// compact form that [`json_text`] names.
#[verifier::external_body]
pub(crate) fn value_to_string(value: &serde_json::Value) -> (text: String)
    ensures
        text@ == json_text(*value),
{
    value.to_string()
}

/// The value that `serde_json::Value::default` gives: the null value, which
/// prints as `null`.
#[verifier::external_body]
pub(crate) fn default_value() -> (value: serde_json::Value)
    ensures
        json_text(value) == "null"@,
{
    serde_json::Value::default()
}

} // verus!
