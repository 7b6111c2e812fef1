//! Custom protocol handling: the response a handler's outcome turns
//! into, and a small built-in handler serving two demo pages.
//!
//! A registered handler maps a requested URI to response bytes and a
//! MIME type, or fails. A failure never propagates to the engine as a
//! crash: it becomes an HTTP 500 response whose plain-text body is the
//! error's message, so one failing request cannot take down the shared
//! context.

use vstd::prelude::*;
use vstd::slice::slice_to_vec;
use vstd::string::StrSliceExecFns;
use vstd::string::StringSliceAdditionalSpecFns;
use vstd::utf8::encode_utf8;
use crate::error::Error;

verus! {

/// The response handed back to the engine for a custom protocol
/// request.
#[derive(Debug)]
pub struct ProtocolResponse {
    /// The HTTP status code: 200 for handler content, 500 for a handler
    /// failure.
    pub status: u16,
    /// The MIME type of the body.
    pub content_type: String,
    /// The response bytes.
    pub body: Vec<u8>,
}

/// Translate a protocol handler's outcome into the response the engine
/// delivers: content is served as-is under its MIME type, and an error
/// becomes status 500 with `text/plain` content whose body is the
/// error's textual message.
pub fn protocol_response(result: Result<(Vec<u8>, String), Error>) -> (r: ProtocolResponse)
    ensures
        result matches Ok(content) ==> r.status == 200 && r.content_type@ == content.1@
            && r.body@ == content.0@,
        result matches Err(e) ==> r.status == 500 && r.content_type@ == "text/plain"@
            && r.body@ == encode_utf8(e.message_spec()),
{
    match result {
        Ok((body, mime)) => ProtocolResponse { status: 200, content_type: mime, body },
        Err(e) => {
            let message = e.message();
            ProtocolResponse {
                status: 500,
                content_type: String::from_str("text/plain"),
                body: message.as_str().as_bytes_vec(),
            }
        },
    }
}

/// Every occurrence of `pat` removed from `s`, scanning left to right
/// without overlap; an empty pattern removes nothing.
pub open spec fn remove_all(s: Seq<u8>, pat: Seq<u8>) -> Seq<u8>
    decreases s.len(),
{
    if pat.len() == 0 || s.len() < pat.len() {
        s
    } else if s.take(pat.len() as int) == pat {
        remove_all(s.skip(pat.len() as int), pat)
    } else {
        seq![s[0]] + remove_all(s.drop_first(), pat)
    }
}

/// Whether `pat` occurs in `s` at position `i`.
fn matches_at(s: &[u8], pat: &[u8], i: usize) -> (r: bool)
    requires
        i <= s@.len(),
    ensures
        r == (s@.len() - i >= pat@.len() && s@.subrange(i as int, i + pat@.len()) == pat@),
{
    if s.len() - i < pat.len() {
        return false;
    }
    let n = s.len();
    let m = pat.len();
    let ghost window = s@.subrange(i as int, i + pat@.len());
    let mut j: usize = 0;
    while j < m
        invariant
            n == s@.len(),
            m == pat@.len(),
            i + m <= n,
            j <= m,
            window == s@.subrange(i as int, i + pat@.len()),
            forall|k: int| 0 <= k < j ==> window[k] == pat@[k],
        decreases pat@.len() - j,
    {
        if s[i + j] != pat[j] {
            proof {
                assert(window[j as int] != pat@[j as int]);
            }
            return false;
        }
        j += 1;
    }
    proof {
        assert(window =~= pat@);
    }
    true
}

/// Whether two byte slices hold the same bytes.
fn bytes_eq(a: &[u8], b: &[u8]) -> (r: bool)
    ensures
        r == (a@ == b@),
{
    if a.len() != b.len() {
        return false;
    }
    let mut i: usize = 0;
    while i < a.len()
        invariant
            a@.len() == b@.len(),
            i <= a@.len(),
            forall|k: int| 0 <= k < i ==> a@[k] == b@[k],
        decreases a@.len() - i,
    {
        if a[i] != b[i] {
            return false;
        }
        i += 1;
    }
    proof {
        assert(a@ =~= b@);
    }
    true
}

/// Remove every occurrence of `pat` from `s`, scanning left to right.
pub fn remove_all_bytes(s: &[u8], pat: &[u8]) -> (r: Vec<u8>)
    ensures
        r@ == remove_all(s@, pat@),
{
    if pat.len() == 0 {
        return slice_to_vec(s);
    }
    let mut out: Vec<u8> = Vec::new();
    let mut i: usize = 0;
    proof {
        assert(s@.skip(0) =~= s@);
        assert(out@ + remove_all(s@, pat@) =~= remove_all(s@, pat@));
    }
    while i < s.len()
        invariant
            pat@.len() > 0,
            i <= s@.len(),
            remove_all(s@, pat@) == out@ + remove_all(s@.skip(i as int), pat@),
        decreases s@.len() - i,
    {
        let ghost rest = s@.skip(i as int);
        if matches_at(s, pat, i) {
            proof {
                assert(rest.take(pat@.len() as int) =~= s@.subrange(i as int, i + pat@.len()));
                assert(rest.skip(pat@.len() as int) =~= s@.skip(i + pat@.len()));
                assert(remove_all(rest, pat@) == remove_all(s@.skip(i + pat@.len()), pat@));
            }
            i += pat.len();
        } else {
            proof {
                if rest.len() >= pat@.len() {
                    assert(rest.take(pat@.len() as int) =~= s@.subrange(
                        i as int,
                        i + pat@.len(),
                    ));
                    assert(remove_all(rest, pat@) == seq![rest[0]] + remove_all(
                        rest.drop_first(),
                        pat@,
                    ));
                }
                assert(rest[0] == s@[i as int]);
                assert(rest.drop_first() =~= s@.skip(i + 1));
                if rest.len() < pat@.len() {
                    assert(rest.drop_first().len() < pat@.len());
                    assert(remove_all(rest, pat@) == rest);
                    assert(remove_all(rest.drop_first(), pat@) == rest.drop_first());
                    assert(rest =~= seq![rest[0]] + rest.drop_first());
                }
                assert((out@ + remove_all(rest, pat@)) =~= (out@.push(s@[i as int]) + remove_all(
                    s@.skip(i + 1),
                    pat@,
                )));
            }
            let byte = s[i];
            out.push(byte);
            i += 1;
        }
    }
    proof {
        assert(s@.skip(i as int) =~= Seq::<u8>::empty());
        assert(remove_all(s@.skip(i as int), pat@) == s@.skip(i as int));
        assert(out@ + s@.skip(i as int) =~= out@);
    }
    out
}

/// The demo index page served for every path but `/hello.html`.
pub open spec fn index_page_text() -> Seq<char> {
    INDEX_HTML@
}

/// The demo page served for `/hello.html`.
pub open spec fn link_page_text() -> Seq<char> {
    LINK_HTML@
}

pub const INDEX_HTML: &'static str = r#"
       <!DOCTYPE html>
       <html lang="en">
           <head>
           <meta charset="UTF-8" />
           <meta http-equiv="X-UA-Compatible" content="IE=edge" />
           <meta name="viewport" content="width=device-width, initial-scale=1.0" />
           </head>
           <body>
           <h1>Welcome 🍫</h1>
           <a href="/hello.html">Link</a>
           </body>
       </html>"#;

pub const LINK_HTML: &'static str = r#"
       <!DOCTYPE html>
       <html lang="en">
           <head>
           <meta charset="UTF-8" />
           <meta http-equiv="X-UA-Compatible" content="IE=edge" />
           <meta name="viewport" content="width=device-width, initial-scale=1.0" />
           </head>
           <body>
           <h1>Hello!</h1>
           <a href="/index.html">Back home</a>
           </body>
       </html>"#;

/// The page a request under the demo scheme resolves to: the scheme
/// prefix is stripped from the path, and `/hello.html` selects the link
/// page while every other path falls back to the index page.
pub open spec fn requested_page(path: Seq<char>) -> Seq<char> {
    if remove_all(encode_utf8(path), "cacao://".spec_bytes()) == "/hello.html".spec_bytes() {
        link_page_text()
    } else {
        index_page_text()
    }
}

/// The built-in delegate answering requests under the demo `cacao`
/// scheme with one of two static pages.
#[derive(Debug, Default)]
pub struct WebViewInstance;

impl WebViewInstance {
    /// Serve a custom protocol request: always answers, with the UTF-8
    /// bytes of the page the path resolves to.
    pub fn on_custom_protocol_request(&self, path: &str) -> (r: Option<Vec<u8>>)
        ensures
            r matches Some(v) && v@ == encode_utf8(requested_page(path@)),
    {
        let stripped = remove_all_bytes(path.as_bytes(), "cacao://".as_bytes());
        let page = if bytes_eq(stripped.as_slice(), "/hello.html".as_bytes()) {
            LINK_HTML
        } else {
            INDEX_HTML
        };
        Some(page.as_bytes_vec())
    }
}

} // verus!
