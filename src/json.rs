use vstd::prelude::*;
use crate::{JsError, Result};

verus! {

/// What decoding makes of the decoder's outcome: the decoded value, or the decoder's
/// error as a `ParseJson` failure.
pub open spec fn json_result_of<T>(r: std::result::Result<T, serde_json::Error>) -> Result<T> {
    match r {
        Ok(v) => Ok(v),
        Err(e) => Err(JsError::ParseJson(e)),
    }
}

/// Relies on serde_json::from_str to decode JSON text into a `T`. Whether it succeeds
/// depends on `T`'s `Deserialize` impl, so nothing is stated of the outcome.
#[verifier::external_body]
fn decode_str<T: serde::de::DeserializeOwned>(json: &str) -> std::result::Result<T, serde_json::Error> {
    serde_json::from_str::<T>(json)
}

/// Turns the decoder's outcome into this library's result: a decoded value is passed
/// on as it is, and a decoder error becomes a `ParseJson` failure that carries it.
pub fn json_outcome<T>(r: std::result::Result<T, serde_json::Error>) -> (out: Result<T>)
    ensures
        out == json_result_of(r),
{
    match r {
        Ok(v) => Ok(v),
        Err(e) => Err(JsError::ParseJson(e)),
    }
}

/// Deserializes a JSON string slice into a value of type `T`.
///
/// On failure the error is always `JsError::ParseJson`, carrying the decoder's error; no
/// value is handed back with it.
pub fn from_json<T: serde::de::DeserializeOwned>(json: &str) -> (out: Result<T>)
    ensures
        out is Err ==> out->Err_0 is ParseJson,
{
    let decoded = decode_str::<T>(json);
    json_outcome(decoded)
}

} // verus!
