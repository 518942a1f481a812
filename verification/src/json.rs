use vstd::prelude::*;

verus! {

/// `serde_json::Value` carries the parsed health payload through to
/// callers; the supervisor never looks inside it.
#[verifier::external_type_specification]
#[verifier::external_body]
pub struct ExValue(serde_json::Value);

/// Whether serde_json accepts a string as a JSON document. A function of
/// the characters alone.
pub uninterp spec fn json_parse_ok(s: Seq<char>) -> bool;

/// Relies on serde_json::from_str::<Value>: it returns `Ok` exactly when
/// the input is a well-formed JSON document, which depends on the
/// characters alone.
#[verifier::external_body]
pub(crate) fn parse_json(s: &str) -> (r: Option<serde_json::Value>)
    ensures
        r is Some <==> json_parse_ok(s@),
{
    serde_json::from_str::<serde_json::Value>(s).ok()
}

} // verus!
