//! Core of a webview embedding layer: one shared browsing context per
//! profile, a registry of custom protocol schemes, and the FIFO load
//! serializer that keeps at most one navigation in flight against the
//! shared context at any time.
//!
//! The platform engine itself (window chrome, the native webview binding)
//! is an external collaborator: it performs the navigations this library
//! decides on and feeds their completion signals back in.

pub mod error;
pub mod load_serializer;
pub mod load_laws;
pub mod uri;
pub mod web_context;
pub mod protocol;
pub mod window;
