use vstd::prelude::*;
use crate::text::str_equal;

verus! {

#[verifier::external_type_specification]
#[verifier::external_body]
pub struct ExValue(serde_json::Value);

/// The JSON string value whose characters are `s`; names the result of
/// `serde_json::Value::String`.
pub uninterp spec fn json_string_of(s: Seq<char>) -> serde_json::Value;

/// Relies on serde_json::Value::String: builds the JSON string value holding
/// exactly the given characters.
#[verifier::external_body]
fn json_string(s: &str) -> (r: serde_json::Value)
    ensures
        r == json_string_of(s@),
{
    serde_json::Value::String(s.to_string())
}

/// The fixed redaction marker that anonymization substitutes for any value.
pub open spec fn redaction_text() -> Seq<char> {
    "xxxxx"@
}

/// A named, pure value transformation, selected by name at compilation time.
/// The registry of transforms is fixed: `"anonymize"` is the only name.
#[derive(Clone, Copy, PartialEq, Eq, Structural, Debug)]
pub enum Transform {
    /// Replaces any value with the fixed redaction marker.
    Anonymize,
}

/// What applying a transform to a value yields: anonymization ignores the
/// input entirely and returns the redaction marker.
pub open spec fn transform_spec(t: Transform, v: serde_json::Value) -> serde_json::Value {
    json_string_of(redaction_text())
}

/// Whatever the input value, anonymization yields the fixed redaction marker.
pub proof fn lemma_anonymize_redacts(t: Transform, v: serde_json::Value)
    ensures
        transform_spec(t, v) == json_string_of(redaction_text()),
{
}

impl Transform {
    /// Look a transform up by its configuration name; any name other than
    /// `"anonymize"` is unknown.
    pub fn resolve(name: &str) -> (r: Option<Transform>)
        ensures
            r == (if name@ == "anonymize"@ {
                Some(Transform::Anonymize)
            } else {
                None::<Transform>
            }),
    {
        if str_equal(name, "anonymize") {
            Some(Transform::Anonymize)
        } else {
            None
        }
    }

    /// Apply this transform to a value.
    pub fn apply(&self, v: serde_json::Value) -> (r: serde_json::Value)
        ensures
            r == transform_spec(*self, v),
    {
        json_string("xxxxx")
    }
}

} // verus!
