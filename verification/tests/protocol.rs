//! The custom protocol response contract: handler content is served
//! as-is; a handler failure becomes an HTTP 500 with the error's
//! message as a plain-text body.

use wry::error::Error;
use wry::protocol::{protocol_response, ProtocolResponse};

fn demo_handler(uri: &str) -> Result<(Vec<u8>, String), Error> {
    if uri == "scheme://fail" {
        Err(Error::MissingManager)
    } else {
        Ok((b"<html>ok</html>".to_vec(), "text/html".to_string()))
    }
}

#[test]
fn handler_error_becomes_http_500_plain_text() {
    let response: ProtocolResponse = protocol_response(demo_handler("scheme://fail"));
    assert_eq!(response.status, 500);
    assert_eq!(response.content_type, "text/plain");
    assert_eq!(response.body, Error::MissingManager.message().into_bytes());
}

#[test]
fn handler_content_is_served_as_is() {
    let response = protocol_response(demo_handler("scheme://index.html"));
    assert_eq!(response.status, 200);
    assert_eq!(response.content_type, "text/html");
    assert_eq!(response.body, b"<html>ok</html>".to_vec());
}

#[test]
fn duplicate_protocol_error_message_names_the_scheme() {
    let e = Error::DuplicateCustomProtocol("app".to_string());
    assert_eq!(e.message(), "Duplicate custom protocol registered: app");
}

#[test]
fn missing_manager_error_message() {
    assert_eq!(Error::MissingManager.message(), "Fail to fetch security manager");
}

#[test]
fn url_error_message_carries_the_parser_text() {
    let e = Error::UrlError("relative URL without a base".to_string());
    assert_eq!(e.message(), "relative URL without a base");
}

#[test]
fn error_response_body_is_the_message_of_the_given_error() {
    let e = Error::DuplicateCustomProtocol("app".to_string());
    let response = protocol_response(Err(e.clone()));
    assert_eq!(response.status, 500);
    assert_eq!(response.content_type, "text/plain");
    assert_eq!(
        String::from_utf8(response.body).unwrap(),
        "Duplicate custom protocol registered: app"
    );
}

#[test]
fn parse_failure_translates_to_500_with_the_parser_text() {
    let e = wry::uri::Uri::parse("notaurl").unwrap_err();
    let response = protocol_response(Err(e.clone()));
    assert_eq!(response.status, 500);
    assert_eq!(response.content_type, "text/plain");
    assert_eq!(String::from_utf8(response.body).unwrap(), e.message());
}
