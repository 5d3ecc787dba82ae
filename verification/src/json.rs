//! The boundary to the JSON parser.

use vstd::prelude::*;

verus! {

#[verifier::external_type_specification]
#[verifier::external_body]
pub struct ExValue(serde_json::Value);

#[verifier::external_type_specification]
#[verifier::external_body]
pub struct ExJsonError(serde_json::Error);

/// The value that a text denotes as JSON, or `None` where the text is no
/// JSON text.
pub uninterp spec fn json_of_text(text: Seq<char>) -> Option<serde_json::Value>;

/// Parses a text as one JSON value.
///
/// Calls `serde_json::from_str` at the type `serde_json::Value`. Trusted, not
/// proved: the call succeeds exactly on the texts that denote a value, and
/// what it returns is that value, the same for the same text.
#[verifier::external_body]
pub(crate) fn parse_json(text: &str) -> (parsed: Result<serde_json::Value, serde_json::Error>)
    ensures
        parsed is Ok <==> json_of_text(text@) is Some,
        parsed matches Ok(value) ==> json_of_text(text@) == Some(value),
{
    serde_json::from_str::<serde_json::Value>(text)
}

} // verus!
