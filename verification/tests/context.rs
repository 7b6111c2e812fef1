//! Behavior of the shared context: protocol registration, navigation
//! queueing, the data directory and the automation flag.

use wry::error::Error;
use wry::load_serializer::WebviewHandle;
use wry::uri::Uri;
use wry::web_context::{indexed_db_directory, local_storage_directory, WebContext};

#[test]
fn duplicate_protocol_is_rejected() {
    let mut ctx = WebContext::new(None);
    assert!(ctx.register_uri_scheme("app").is_ok());
    match ctx.register_uri_scheme("app") {
        Err(Error::DuplicateCustomProtocol(scheme)) => assert_eq!(scheme, "app"),
        other => panic!("expected a duplicate-protocol error, got {:?}", other),
    }
}

#[test]
fn same_scheme_on_two_contexts_both_succeed() {
    let mut a = WebContext::new(None);
    let mut b = WebContext::new(None);
    assert!(a.register_uri_scheme("app").is_ok());
    assert!(b.register_uri_scheme("app").is_ok());
}

#[test]
fn distinct_schemes_register_on_one_context() {
    let mut ctx = WebContext::new(None);
    assert!(ctx.register_uri_scheme("assets").is_ok());
    assert!(ctx.register_uri_scheme("app").is_ok());
    assert!(ctx.register_uri_scheme("assets").is_err());
    assert!(ctx.register_uri_scheme("app").is_err());
}

#[test]
fn duplicate_registration_leaves_registry_unchanged() {
    let mut ctx = WebContext::new(None);
    assert!(ctx.register_uri_scheme("app").is_ok());
    assert!(ctx.register_uri_scheme("app").is_err());
    // a third attempt still fails for the same single registration,
    // and an unrelated scheme is still free
    assert!(ctx.register_uri_scheme("app").is_err());
    assert!(ctx.register_uri_scheme("other").is_ok());
}

#[test]
fn data_directory_is_kept() {
    let ctx = WebContext::new(Some("/tmp/profile".to_string()));
    assert_eq!(ctx.data_directory().map(String::as_str), Some("/tmp/profile"));
}

#[test]
fn default_context_has_no_data_directory() {
    let ctx = WebContext::default();
    assert!(ctx.data_directory().is_none());
}

#[test]
fn storage_directories_follow_the_profile_layout() {
    assert_eq!(local_storage_directory("/data/profile"), "/data/profile/localstorage");
    assert_eq!(indexed_db_directory("/data/profile"), "/data/profile/databases/indexeddb");
}

#[test]
fn automation_is_off_until_enabled() {
    let mut ctx = WebContext::new(None);
    assert!(!ctx.allows_automation());
    ctx.set_allows_automation(true);
    assert!(ctx.allows_automation());
    ctx.set_allows_automation(false);
    assert!(!ctx.allows_automation());
}

#[test]
fn context_queue_serializes_navigations() {
    let mut ctx = WebContext::new(None);
    let a = Uri::parse("https://a.example/").unwrap();
    let b = Uri::parse("https://b.example/").unwrap();
    ctx.queue_load_uri(WebviewHandle(1), a);
    ctx.queue_load_uri(WebviewHandle(2), b);

    let first = ctx.flush_queue_loader().expect("first dispatch");
    assert_eq!(first.webview, WebviewHandle(1));
    assert_eq!(first.uri, "https://a.example/");
    // in flight: a further flush does nothing
    assert!(ctx.flush_queue_loader().is_none());

    let second = ctx.load_finished().expect("second dispatch");
    assert_eq!(second.webview, WebviewHandle(2));
    assert!(ctx.load_finished().is_none());
}
