//! Validated absolute URLs.
//!
//! Navigation targets are parsed and normalized by the `url` crate
//! before they may enter the load queue; the library holds only the
//! resulting serialization.

use vstd::prelude::*;
use crate::error::Error;

verus! {

/// The serialization `url::Url::parse` produces for a given input, when
/// it accepts the input. Parsing is deterministic: the result depends on
/// the input string alone.
pub uninterp spec fn url_serialization(input: Seq<char>) -> Seq<char>;

/// A validated absolute URL, held as the serialization the `url` crate's
/// parser produced for it.
#[derive(Debug, Clone)]
pub struct Uri {
    serialized: String,
}

impl View for Uri {
    type V = Seq<char>;

    closed spec fn view(&self) -> Seq<char> {
        self.serialized@
    }
}

impl Uri {
    /// Parse an absolute URL. On success the held string is the parser's
    /// normalized serialization of the input; a rejected input yields
    /// [`Error::UrlError`] carrying the parser's description.
    pub fn parse(input: &str) -> (r: Result<Uri, Error>)
        ensures
            r matches Ok(u) ==> u@ == url_serialization(input@),
            r matches Err(e) ==> e matches Error::UrlError(_),
    {
        match parse_with_url_crate(input) {
            Ok(s) => Ok(Uri { serialized: s }),
            Err(e) => Err(Error::UrlError(parse_error_text(&e))),
        }
    }

    /// The serialized URL, as handed to the engine's load call.
    pub fn as_str(&self) -> (r: &str)
        ensures
            r@ == self@,
    {
        self.serialized.as_str()
    }

    /// Consume the URL, keeping its serialization.
    pub fn into_string(self) -> (r: String)
        ensures
            r@ == self@,
    {
        self.serialized
    }
}

/// The `url` crate's parse error, carried through opaquely.
#[verifier::external_type_specification]
#[verifier::external_body]
pub struct ExParseError(url::ParseError);

/// Relies on `url::Url::parse`, with the `From<Url> for String`
/// conversion that hands back the parsed URL's serialization: whether
/// parsing succeeds, and what the accepted URL serializes to, depend on
/// the input string alone.
#[verifier::external_body]
fn parse_with_url_crate(input: &str) -> (r: Result<String, url::ParseError>)
    ensures
        r matches Ok(s) ==> s@ == url_serialization(input@),
{
    url::Url::parse(input).map(String::from)
}

/// Relies on `Display for url::ParseError`: every variant renders as a
/// fixed, non-empty description.
#[verifier::external_body]
fn parse_error_text(e: &url::ParseError) -> (r: String)
    ensures
        r@.len() > 0,
{
    e.to_string()
}

} // verus!
