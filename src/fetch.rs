use vstd::prelude::*;
use crate::{JsError, Result};

verus! {

/// The HTTP client's response to a request, whose body is still to be read.
#[verifier::external_type_specification]
#[verifier::external_body]
pub struct ExResponse(reqwest::Response);

/// What a fetch makes of one outcome of the HTTP client: the value on success, the
/// client's error as a `Network` failure otherwise.
pub open spec fn network_result_of<T>(r: std::result::Result<T, reqwest::Error>) -> Result<T> {
    match r {
        Ok(v) => Ok(v),
        Err(e) => Err(JsError::Network(e)),
    }
}

/// The first step of a fetch, taken once the GET request has completed: a response of
/// any status goes on to have its body read, and a transport error ends the fetch with
/// a `Network` failure.
pub fn request_outcome(sent: std::result::Result<reqwest::Response, reqwest::Error>) -> (out: Result<reqwest::Response>)
    ensures
        out == network_result_of(sent),
        out is Ok <==> sent is Ok,
        out is Err ==> out->Err_0 is Network,
{
    match sent {
        Ok(response) => Ok(response),
        Err(error) => Err(JsError::Network(error)),
    }
}

/// The last step of a fetch, taken once the body has been read: the text is the result
/// exactly as read, and a failure to read it is a `Network` failure.
pub fn body_outcome(body: std::result::Result<String, reqwest::Error>) -> (out: Result<String>)
    ensures
        out == network_result_of(body),
        out is Ok <==> body is Ok,
        body is Ok ==> out->Ok_0@ == body->Ok_0@,
        out is Err ==> out->Err_0 is Network,
{
    match body {
        Ok(data) => Ok(data),
        Err(error) => Err(JsError::Network(error)),
    }
}

} // verus!
