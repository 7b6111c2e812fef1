//! URL validation: navigation targets are parsed and normalized by the
//! `url` crate before they may enter the load queue.

use wry::error::Error;
use wry::uri::Uri;

#[test]
fn parse_accepts_an_absolute_url() {
    let uri = Uri::parse("https://example.net/path?q=1").unwrap();
    assert_eq!(uri.as_str(), "https://example.net/path?q=1");
}

#[test]
fn parse_normalizes_scheme_host_and_path() {
    // the parser does real work: case folding and a canonical path
    let uri = Uri::parse("HTTP://EXAMPLE.com").unwrap();
    assert_eq!(uri.as_str(), "http://example.com/");
}

#[test]
fn parse_rejects_a_relative_url() {
    match Uri::parse("/just/a/path") {
        Err(Error::UrlError(text)) => assert!(!text.is_empty()),
        other => panic!("expected a URL error, got {:?}", other),
    }
}

#[test]
fn into_string_hands_back_the_serialization() {
    let uri = Uri::parse("https://example.net").unwrap();
    assert_eq!(uri.into_string(), "https://example.net/");
}
