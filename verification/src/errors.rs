//! Error types and the error translator: every internal failure is mapped to
//! exactly one foreign-visible error kind (a generic value error) whose
//! message names the failing phase and embeds the underlying diagnostic
//! verbatim.

use vstd::prelude::*;
use vstd::string::StringExecFns;

verus! {

/// An internal codec failure, carrying the diagnostic produced inside
/// generic (de)serialization.
#[derive(Clone, Debug)]
pub struct CodecError {
    pub message: String,
}

/// Foreign-visible failure of the validator adapter: the value matched
/// neither the instance path nor the generic-decode path. Surfaced to the
/// foreign runtime as its generic value-error kind.
#[derive(Clone, Debug)]
pub struct ValidationError {
    pub message: String,
}

/// Foreign-visible failure of the serializer adapter: the value could not be
/// turned into its generic representation. Surfaced to the foreign runtime
/// as its generic value-error kind.
#[derive(Clone, Debug)]
pub struct SerializationError {
    pub message: String,
}

/// Message for a value that failed the generic-decode path.
pub open spec fn deserialize_failure_message(diag: Seq<char>) -> Seq<char> {
    "Failed to deserialize: "@ + diag
}

/// Message for a value from which no native instance could be extracted.
pub open spec fn extract_failure_message(diag: Seq<char>) -> Seq<char> {
    "Failed to extract: "@ + diag
}

/// Message for an instance the codec could not encode.
pub open spec fn serialize_failure_message(diag: Seq<char>) -> Seq<char> {
    "Failed to serialize: "@ + diag
}

/// Translate a codec decode failure into the foreign-visible validation error.
pub fn translate_decode_failure(e: CodecError) -> (r: ValidationError)
    ensures
        r.message@ == deserialize_failure_message(e.message@),
{
    let mut m = String::from_str("Failed to deserialize: ");
    m.append(e.message.as_str());
    ValidationError { message: m }
}

/// Translate an extraction failure into the foreign-visible serialization error.
pub fn translate_extract_failure(diag: String) -> (r: SerializationError)
    ensures
        r.message@ == extract_failure_message(diag@),
{
    let mut m = String::from_str("Failed to extract: ");
    m.append(diag.as_str());
    SerializationError { message: m }
}

/// Translate a codec encode failure into the foreign-visible serialization error.
pub fn translate_encode_failure(e: CodecError) -> (r: SerializationError)
    ensures
        r.message@ == serialize_failure_message(e.message@),
{
    let mut m = String::from_str("Failed to serialize: ");
    m.append(e.message.as_str());
    SerializationError { message: m }
}

} // verus!
