use vstd::prelude::*;

use crate::error::{JsonCategory, PersistError};

verus! {

#[verifier::external_type_specification]
#[verifier::external_body]
pub struct ExJsonError(serde_json::Error);

/// Relies on serde_json::Error::classify: tells which kind of failure the
/// codec reported.
#[verifier::external_body]
fn json_category(e: &serde_json::Error) -> (r: JsonCategory) {
    match e.classify() {
        serde_json::error::Category::Io => JsonCategory::Io,
        serde_json::error::Category::Syntax => JsonCategory::Syntax,
        serde_json::error::Category::Data => JsonCategory::Data,
        serde_json::error::Category::Eof => JsonCategory::Eof,
    }
}

/// Relies on serde_json::to_string: the compact JSON text of a value, or the
/// failure that the value's serialization reported.
#[verifier::external_body]
fn json_to_string<T: serde::Serialize>(value: &T) -> (r: Result<String, serde_json::Error>) {
    serde_json::to_string(value)
}

/// Relies on serde_json::from_str: the value that a JSON text describes, or
/// the failure met while parsing it.
#[verifier::external_body]
fn json_from_str<T: serde::de::DeserializeOwned>(text: &str) -> (r: Result<T, serde_json::Error>) {
    serde_json::from_str(text)
}

/// Encodes a value as compact JSON text.
///
/// Every failure of the codec is reported as an encoding error.
pub fn encode_json<T: serde::Serialize>(value: &T) -> (r: Result<String, PersistError>)
    ensures
        r is Err ==> r->Err_0 is Encode,
{
    match json_to_string(value) {
        Ok(text) => Ok(text),
        Err(e) => Err(PersistError::Encode(json_category(&e))),
    }
}

/// Decodes a value from JSON text.
///
/// Every failure of the codec is reported as a decoding error.
pub fn decode_json<T: serde::de::DeserializeOwned>(text: &str) -> (r: Result<T, PersistError>)
    ensures
        r is Err ==> r->Err_0 is Decode,
{
    match json_from_str(text) {
        Ok(value) => Ok(value),
        Err(e) => Err(PersistError::Decode(json_category(&e))),
    }
}

} // verus!
