//! The built-in demo protocol handler and the byte-level pattern
//! removal it is built on.

use wry::protocol::{remove_all_bytes, WebViewInstance, INDEX_HTML, LINK_HTML};

#[test]
fn hello_path_serves_the_link_page() {
    let delegate = WebViewInstance;
    let body = delegate.on_custom_protocol_request("cacao:///hello.html").unwrap();
    assert_eq!(body, LINK_HTML.as_bytes().to_vec());
}

#[test]
fn other_paths_serve_the_index_page() {
    let delegate = WebViewInstance;
    let body = delegate.on_custom_protocol_request("cacao:///index.html").unwrap();
    assert_eq!(body, INDEX_HTML.as_bytes().to_vec());
    let root = delegate.on_custom_protocol_request("cacao://").unwrap();
    assert_eq!(root, INDEX_HTML.as_bytes().to_vec());
}

#[test]
fn bare_path_without_scheme_also_matches() {
    // the scheme prefix is removed wherever it occurs; a path that
    // already lacks it is taken as it is
    let delegate = WebViewInstance::default();
    let body = delegate.on_custom_protocol_request("/hello.html").unwrap();
    assert_eq!(body, LINK_HTML.as_bytes().to_vec());
}

#[test]
fn repeated_scheme_prefixes_are_all_removed() {
    let delegate = WebViewInstance;
    let body = delegate.on_custom_protocol_request("cacao://cacao:///hello.html").unwrap();
    assert_eq!(body, LINK_HTML.as_bytes().to_vec());
}

#[test]
fn remove_all_bytes_removes_every_occurrence() {
    assert_eq!(remove_all_bytes(b"abcabcabc", b"abc"), b"".to_vec());
    assert_eq!(remove_all_bytes(b"xabcy", b"abc"), b"xy".to_vec());
    assert_eq!(remove_all_bytes(b"hello", b"zz"), b"hello".to_vec());
}

#[test]
fn remove_all_bytes_scans_left_to_right_without_overlap() {
    // after the first "aa" is removed the scan continues behind it
    assert_eq!(remove_all_bytes(b"aaa", b"aa"), b"a".to_vec());
    assert_eq!(remove_all_bytes(b"aaaa", b"aa"), b"".to_vec());
}

#[test]
fn remove_all_bytes_with_empty_pattern_removes_nothing() {
    assert_eq!(remove_all_bytes(b"abc", b""), b"abc".to_vec());
}
