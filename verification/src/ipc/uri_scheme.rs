//! The custom `axion://` URI scheme that serves the embedded bundle in
//! production: `axion://app/` is `index.html`, `axion://app/assets/app.js` is
//! `assets/app.js`. This module decides what a request URL asks for and what
//! is answered; the web view plumbing is the host's.
use vstd::prelude::*;

use crate::assets::Asset;
use vstd::string::*;
use crate::text::{before_first, has_prefix, prefix_before_first, starts_with};

verus! {

/// The URL the web view navigates to in production mode.
pub const SCHEME_URL: &'static str = "axion://app/";

/// The filter pattern registered for the scheme.
pub const SCHEME_FILTER: &'static str = "axion://app/*";

/// The scheme and host that asset URLs begin with.
pub const SCHEME_HOST: &'static str = "axion://app";

/// The URL the web view navigates to in production mode.
pub fn production_start_url() -> (r: &'static str)
    ensures
        r@ == SCHEME_URL@,
{
    SCHEME_URL
}

/// The asset path that a request URL names: the URL without `axion://app`
/// (just `/` for a URL of another origin), up to any `?` query.
pub open spec fn asset_path_spec(url: Seq<char>) -> Seq<char> {
    let rest = if starts_with(url, SCHEME_HOST@) {
        url.skip(SCHEME_HOST@.len() as int)
    } else {
        "/"@
    };
    before_first(rest, '?')
}

/// The asset path that a request URL names, e.g. `axion://app/a.js?v=1` →
/// `/a.js`.
pub fn asset_path<'a>(url: &'a str) -> (r: &'a str)
    ensures
        r@ == asset_path_spec(url@),
{
    let rest: &str = if has_prefix(url, SCHEME_HOST) {
        let n = url.unicode_len();
        let k = SCHEME_HOST.unicode_len();
        url.substring_char(k, n)
    } else {
        "/"
    };
    prefix_before_first(rest, '?')
}

/// A synthetic HTTP response for the web view.
pub struct WebResponse {
    /// HTTP status code.
    pub status: u16,
    /// Response body.
    pub body: Vec<u8>,
    /// MIME type of the body.
    pub mime: String,
}

/// The body of the answer to a request for an asset not in the bundle.
pub open spec fn not_found_body() -> Seq<u8> {
    seq![52u8, 48u8, 52u8, 32u8, 78u8, 111u8, 116u8, 32u8, 70u8, 111u8, 117u8, 110u8, 100u8]
}

/// The answer to an asset request: `200` with the asset, or `404` with the
/// text `404 Not Found` when the bundle has no such file.
pub fn asset_response(asset: Option<Asset>) -> (r: WebResponse)
    ensures
        asset matches Some(a) ==> r.status == 200 && r.body@ == a.data@ && r.mime@ == a.mime@,
        asset is None ==> r.status == 404 && r.body@ == not_found_body() && r.mime@
            == "text/plain"@,
{
    match asset {
        Some(a) => WebResponse { status: 200, body: a.data, mime: a.mime },
        None => {
            let body: Vec<u8> = vec![52u8, 48u8, 52u8, 32u8, 78u8, 111u8, 116u8, 32u8, 70u8, 111u8, 117u8, 110u8, 100u8];
            assert(body@ =~= not_found_body());
            WebResponse { status: 404, body, mime: String::from_str("text/plain") }
        },
    }
}

/// The response headers for a body of type `mime`.
pub open spec fn headers_spec(mime: Seq<char>) -> Seq<char> {
    "Content-Type: "@ + mime + "\r\nAccess-Control-Allow-Origin: *"@
}

/// The response headers for a body of type `mime`.
pub fn response_headers(mime: &str) -> (r: String)
    ensures
        r@ == headers_spec(mime@),
{
    let mut r = String::from_str("Content-Type: ");
    r.append(mime);
    r.append("\r\nAccess-Control-Allow-Origin: *");
    r
}

} // verus!
