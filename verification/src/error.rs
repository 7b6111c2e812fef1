//! Errors returned by the context and its protocol registry.

use vstd::prelude::*;

verus! {

/// An error of one of the library's own operations.
#[derive(Debug, Clone, PartialEq, Eq)]
pub enum Error {
    /// A custom protocol scheme was registered a second time on the same
    /// context; registration is rejected without mutating the registry.
    DuplicateCustomProtocol(String),
    /// The engine exposed no security manager, so a scheme could not be
    /// marked secure.
    MissingManager,
    /// A navigation target could not be parsed as an absolute URL; the
    /// string is the parser's description of the failure.
    UrlError(String),
}

impl Error {
    /// The textual message of this error, used as the plain-text body of
    /// an HTTP 500 response when a protocol handler fails.
    pub open spec fn message_spec(&self) -> Seq<char> {
        match self {
            Error::DuplicateCustomProtocol(s) => "Duplicate custom protocol registered: "@ + s@,
            Error::MissingManager => "Fail to fetch security manager"@,
            Error::UrlError(s) => s@,
        }
    }

    /// Render the message of this error.
    pub fn message(&self) -> (r: String)
        ensures
            r@ == self.message_spec(),
    {
        match self {
            Error::DuplicateCustomProtocol(s) => {
                let mut m = String::from_str("Duplicate custom protocol registered: ");
                m.append(s.as_str());
                m
            },
            Error::MissingManager => String::from_str("Fail to fetch security manager"),
            Error::UrlError(s) => s.clone(),
        }
    }
}

} // verus!
