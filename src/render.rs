use vstd::prelude::*;

verus! {

/// A deserialized message payload as the middleware binding delivers it.
#[verifier::external_type_specification]
#[verifier::external_body]
pub struct ExValue(serde_json::Value);

/// The error serde_json reports when it cannot serialize a value.
#[verifier::external_type_specification]
#[verifier::external_body]
pub struct ExError(serde_json::Error);

/// The indented JSON text of a payload; it depends on the payload alone.
pub uninterp spec fn pretty_json_of(v: serde_json::Value) -> Seq<char>;

/// Relies on serde_json::to_string_pretty: renders a payload as indented JSON
/// text. On a `Value` it cannot fail: object keys are strings, `Value`'s own
/// serialization raises no error, and the `Vec` it writes into raises none.
#[verifier::external_body]
pub(crate) fn to_pretty_text(payload: &serde_json::Value) -> (r: Result<String, serde_json::Error>)
    ensures
        r is Ok,
        r matches Ok(t) ==> t@ == pretty_json_of(*payload),
{
    serde_json::to_string_pretty(payload)
}

} // verus!
