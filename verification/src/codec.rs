//! The JSON reader and writer that the adapters stand on: `serde_json`, with
//! its own document type. Nothing in this file is proved; each item says what
//! it takes on trust.

use vstd::prelude::*;
use crate::de::{read_outcome, DeserializeInnerOwned};
use crate::ser::{write_outcome, SerializeInner};

verus! {

/// `serde_json::Value`, any JSON document as a value. It is carried through
/// as it is: no contract looks inside one.
#[verifier::external_type_specification]
#[verifier::external_body]
pub struct ExValue(serde_json::Value);

/// The outcome of `serde_json::from_str::<serde_json::Value>` on a text: the
/// document that the whole text holds, or, where it holds none or something
/// follows the document, the display text of the `serde_json::Error`.
///
/// Taken on trust: the outcome depends on the text alone.
pub uninterp spec fn parsed(text: Seq<char>) -> Result<serde_json::Value, Seq<char>>;

/// The outcome of `serde_json::to_string` on a `serde_json::Value`: the
/// document's compact text, or the display text of the `serde_json::Error`.
///
/// Taken on trust: the outcome depends on the value alone.
pub uninterp spec fn written(value: serde_json::Value) -> Result<Seq<char>, Seq<char>>;

/// Calls `serde_json::from_str` for a `serde_json::Value`, and on failure
/// takes the error's display text. The contract claims that the outcome is
/// [`parsed`] of the text, and nothing of what that is.
#[verifier::external_body]
fn parse_document(text: &str) -> (r: Result<serde_json::Value, String>)
    ensures
        read_outcome(r) == parsed(text@),
{
    match serde_json::from_str::<serde_json::Value>(text) {
        Ok(value) => Ok(value),
        Err(error) => Err(error.to_string()),
    }
}

/// Calls `serde_json::to_string` on a `serde_json::Value`, and on failure
/// takes the error's display text. The contract claims that the outcome is
/// [`written`] of the value, and nothing of what that is.
#[verifier::external_body]
fn write_document(value: &serde_json::Value) -> (r: Result<String, String>)
    ensures
        write_outcome(r) == written(*value),
{
    match serde_json::to_string(value) {
        Ok(text) => Ok(text),
        Err(error) => Err(error.to_string()),
    }
}

impl DeserializeInnerOwned for serde_json::Value {
    open spec fn decoded(text: Seq<char>) -> Result<Self, Seq<char>> {
        parsed(text)
    }

    fn deserialize_inner(text: &str) -> (r: Result<Self, String>) {
        parse_document(text)
    }
}

impl SerializeInner for serde_json::Value {
    open spec fn encoded(&self) -> Result<Seq<char>, Seq<char>> {
        written(*self)
    }

    fn serialize_inner(&self) -> (r: Result<String, String>) {
        write_document(self)
    }
}

} // verus!
