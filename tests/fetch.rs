use js_lib::fetch::{body_outcome, request_outcome};
use js_lib::JsError;

fn malformed_url_error() -> reqwest::Error {
    reqwest::Client::new().get("not a url").build().unwrap_err()
}

#[test]
fn malformed_url_is_a_network_error() {
    let result = request_outcome(Err(malformed_url_error()));
    assert!(matches!(result, Err(JsError::Network(_))));
}

#[test]
fn response_of_any_status_goes_on() {
    let mut reply = http::Response::new("missing");
    *reply.status_mut() = http::StatusCode::NOT_FOUND;
    let result = request_outcome(Ok(reqwest::Response::from(reply)));
    match result {
        Ok(response) => assert_eq!(response.status(), reqwest::StatusCode::NOT_FOUND),
        Err(_) => panic!("expected the response"),
    }
}

#[test]
fn body_text_is_returned_exactly() {
    let result = body_outcome(Ok("a word\n".to_string()));
    assert_eq!(result.unwrap(), "a word\n");
}

#[test]
fn empty_body_is_returned() {
    let result = body_outcome(Ok(String::new()));
    assert_eq!(result.unwrap(), "");
}

#[test]
fn body_read_failure_is_a_network_error() {
    let result = body_outcome(Err(malformed_url_error()));
    assert!(matches!(result, Err(JsError::Network(_))));
}
