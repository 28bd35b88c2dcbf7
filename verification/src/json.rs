//! JSON values that this service carries through unchanged, and the one JSON
//! encoding it performs itself.
use vstd::prelude::*;

verus! {

/// A JSON document held as `serde_json` parsed it. The library never looks
/// inside such a value: it only hands it on to Kratos.
#[verifier::external_type_specification]
#[verifier::external_body]
pub struct ExJsonValue(serde_json::Value);

/// The JSON encoding of the string `s`, as `serde_json::to_string` writes it.
pub uninterp spec fn json_string_literal(s: Seq<char>) -> Seq<char>;

/// Calls `serde_json::to_string` on a string slice. serde_json writes the
/// string between two double quotes with its special characters escaped;
/// the contract states the name of the result and the enclosing quotes. How
/// each character is escaped is left unsaid.
#[verifier::external_body]
pub(crate) fn encode_json_string(s: &str) -> (r: String)
    ensures
        r@ == json_string_literal(s@),
        r@.len() >= 2,
        r@[0] == '"',
        r@.last() == '"',
{
    serde_json::to_string(s).unwrap()
}

} // verus!
