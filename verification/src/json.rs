//! JSON values and the three things this crate asks of `serde_json`:
//! reading a value from bytes, writing one as indented text, and the null value.
//!
//! A `serde_json::Value` is carried through this crate unopened. Nothing here is
//! proved about `serde_json`; each item below says what is taken on trust.

use vstd::prelude::*;

verus! {

/// `serde_json::Value`, carried through unopened.
#[verifier::external_type_specification]
#[verifier::external_body]
pub struct ExValue(serde_json::Value);

/// What `serde_json::from_slice::<Value>` makes of `bytes`: the value that the
/// bytes spell, or `None` where they are not one complete JSON text.
pub uninterp spec fn parsed_json(bytes: Seq<u8>) -> Option<serde_json::Value>;

/// The text that `serde_json::to_string_pretty` writes for `value`.
pub uninterp spec fn pretty_json(value: serde_json::Value) -> Seq<char>;

/// What `Value::is_null` answers for `value`: whether it is JSON `null`.
pub uninterp spec fn json_is_null(value: serde_json::Value) -> bool;

/// Calls `serde_json::from_slice` for a `Value` and drops the parser's error.
/// Trusted: the outcome depends on the bytes alone.
#[verifier::external_body]
pub(crate) fn parse_json(bytes: &[u8]) -> (parsed: Option<serde_json::Value>)
    ensures
        parsed == parsed_json(bytes@),
{
    serde_json::from_slice::<serde_json::Value>(bytes).ok()
}

/// Calls `serde_json::to_string_pretty` on a `Value`.
/// Trusted: the text depends on the value alone, and the call does not fail:
/// the keys of a `Value`'s objects are strings, and the text goes to memory.
#[verifier::external_body]
pub(crate) fn pretty_print(value: &serde_json::Value) -> (text: String)
    ensures
        text@ == pretty_json(*value),
{
    serde_json::to_string_pretty(value).unwrap()
}

/// Builds `serde_json::Value::Null`.
/// Trusted: the value built is the one for which `Value::is_null` holds.
#[verifier::external_body]
pub(crate) fn json_null() -> (value: serde_json::Value)
    ensures
        json_is_null(value),
{
    serde_json::Value::Null
}

} // verus!
