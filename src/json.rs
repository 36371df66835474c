use vstd::prelude::*;

verus! {

#[verifier::external_type_specification]
#[verifier::external_body]
pub struct ExValue(serde_json::Value);

/// Whether serde_json reads the text as exactly one JSON document.
pub uninterp spec fn json_accepts(text: Seq<char>) -> bool;

/// Relies on `serde_json::from_str` into a `serde_json::Value`: whether it
/// succeeds depends on the text alone.
#[verifier::external_body]
pub(crate) fn parse_value(text: &str) -> (r: Option<serde_json::Value>)
    ensures
        r.is_some() == json_accepts(text@),
{
    serde_json::from_str::<serde_json::Value>(text).ok()
}

/// Relies on `serde_json::to_string_pretty`: the value as indented text.
/// It fails only where a `Serialize` impl fails or a map has keys that are
/// not strings, and neither can happen for a `serde_json::Value`. Nothing
/// is assumed of the text.
#[verifier::external_body]
pub(crate) fn pretty_text(value: &serde_json::Value) -> (r: Option<String>)
    ensures
        r is Some,
{
    serde_json::to_string_pretty(value).ok()
}

} // verus!
