//! What this library relies on from `serde_json`.
//!
//! A lockfile entry arrives as `serde_json::Value`s. Verus does not look
//! inside one; the two names below stand for the two things the decoders read
//! from a value, and the two trusted items tie them to the calls that compute
//! them. Nothing else about `serde_json` is assumed.

use vstd::prelude::*;

verus! {

/// Makes `serde_json::Value` known to Verus as a type whose inside it does
/// not see.
#[verifier::external_type_specification]
#[verifier::external_body]
pub struct ExValue(serde_json::Value);

/// The compact JSON text of a value, as its `Display` impl writes it: a
/// string value in double quotes with its content escaped, `null`, `true`,
/// a number, an array in brackets, an object in braces.
pub uninterp spec fn json_text(value: serde_json::Value) -> Seq<char>;

/// The content of a value that is a JSON string, unescaped; `None` for a
/// value of any other kind.
pub uninterp spec fn json_str(value: serde_json::Value) -> Option<Seq<char>>;

/// Trusted: `serde_json::Value::to_string`, which comes from the value's
/// `Display` impl, returns the value's compact JSON text. The text depends on
/// the value alone, and writing it into a `String` does not fail.
#[verifier::external_body]
pub(crate) fn value_text(value: &serde_json::Value) -> (text: String)
    ensures
        text@ == json_text(*value),
{
    value.to_string()
}

/// Trusted: `serde_json::Value::as_str` returns the content of a string
/// value and `None` for every other value.
pub assume_specification<'a>[ serde_json::Value::as_str ](value: &'a serde_json::Value) -> (content:
    Option<&'a str>)
    ensures
        content.deep_view() == json_str(*value),
;

} // verus!
