//! Small conveniences in the style of a browser scripting environment: decoding JSON
//! text into a typed value, and the steps of fetching a page's text over HTTP (the
//! asynchronous round trip itself is left to the caller's runtime). Both report their
//! failures through one two-kind error type.
use vstd::prelude::*;

pub mod json;
pub mod fetch;

pub use json::from_json;

verus! {

/// The outside error of the HTTP client, carried unchanged inside `JsError::Network`.
#[verifier::external_type_specification]
#[verifier::external_body]
pub struct ExReqwestError(reqwest::Error);

/// The outside error of the JSON decoder, carried unchanged inside `JsError::ParseJson`.
#[verifier::external_type_specification]
#[verifier::external_body]
pub struct ExJsonError(serde_json::Error);

/// The failures that may occur.
#[derive(Debug)]
pub enum JsError {
    /// A failure of the HTTP transport: the request could not be made or its body
    /// could not be read as text.
    Network(reqwest::Error),
    /// A failure of the JSON decoder: the text is not JSON, or not of the target's shape.
    ParseJson(serde_json::Error),
}

/// A `Result` whose failure is a `JsError` of this library.
pub type Result<T> = std::result::Result<T, JsError>;

} // verus!
