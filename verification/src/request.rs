//! Building the request that is sent to the scraping service.

use vstd::prelude::*;
use vstd::string::{StrSliceExecFns, StringExecFns, StringSliceAdditionalSpecFns};
use vstd::utf8::encode_utf8;
use crate::command::Verb;
use crate::error::Error;

verus! {

/// How a request is sent.
#[derive(Debug, Clone, Copy, PartialEq, Eq, Structural)]
pub enum HttpMethod {
    Get,
    Head,
    Post,
    Put,
    Delete,
    Options,
    Patch,
}

/// What the transport does when the service answers with a redirect.
#[derive(Debug, Clone, Copy, PartialEq, Eq, Structural)]
pub enum RedirectPolicy {
    /// Redirects are reported, not followed.
    NoFollow,
    /// Redirects are followed up to the given number.
    FollowLimit(u32),
    /// Every redirect is followed.
    FollowAll,
}

/// A request, ready for the transport.
#[derive(Debug, Clone, PartialEq, Eq)]
pub struct HttpRequest {
    pub method: HttpMethod,
    pub redirect_policy: RedirectPolicy,
    pub url: String,
    pub headers: Vec<(String, String)>,
    pub body: Option<Vec<u8>>,
}

/// The JSON string literal that stands for `s`: `s` between double quotes,
/// with the characters escaped that JSON wants escaped.
pub uninterp spec fn json_string_text(s: Seq<char>) -> Seq<char>;

/// Writes `s` as a JSON string literal.
///
/// Trusted: `serde_json::to_string`, called on a string slice. It writes the
/// literal into a byte vector and returns it as a `String`; the result
/// depends on the characters of `s` alone. Writing a string slice into a
/// vector has no way to fail; should the call fail all the same, the literal
/// is empty.
#[verifier::external_body]
fn json_string(s: &str) -> (r: String)
    ensures
        r@ == json_string_text(s@),
{
    serde_json::to_string(s).unwrap_or_default()
}

/// The address of the service, without an endpoint.
pub open spec fn base_url_spec() -> Seq<char> {
    "https://api.firecrawl.dev"@
}

/// The address that requests for `verb` go to.
pub open spec fn request_url_spec(verb: Verb) -> Seq<char> {
    base_url_spec() + verb.endpoint_spec()
}

/// The value of the header that authorizes a request.
pub open spec fn bearer_spec(credential: Seq<char>) -> Seq<char> {
    "Bearer "@ + credential
}

/// The text of a request's body: a JSON object that names the page, given
/// as a JSON string literal, and asks for markdown.
pub open spec fn body_text_spec(url_literal: Seq<char>) -> Seq<char> {
    "{\"formats\":[\"markdown\"],\"url\":"@ + url_literal + "}"@
}

/// Whether `headers` are the two headers of a request made with
/// `credential`, in their order.
pub open spec fn headers_match(headers: Seq<(String, String)>, credential: Seq<char>) -> bool {
    &&& headers.len() == 2
    &&& headers[0].0@ == "Authorization"@
    &&& headers[0].1@ == bearer_spec(credential)
    &&& headers[1].0@ == "Content-Type"@
    &&& headers[1].1@ == "application/json"@
}

/// Whether `request` is the request that asks the service to apply `verb`
/// to the page named by `url_literal`, authorized by `credential`.
pub open spec fn request_matches(
    request: HttpRequest,
    verb: Verb,
    url_literal: Seq<char>,
    credential: Seq<char>,
) -> bool {
    &&& request.method == HttpMethod::Post
    &&& request.redirect_policy == RedirectPolicy::FollowAll
    &&& request.url@ == request_url_spec(verb)
    &&& headers_match(request.headers@, credential)
    &&& request.body is Some
    &&& request.body->Some_0@ == encode_utf8(body_text_spec(url_literal))
}

/// The bytes of a request's body around a page address that is already
/// written as a JSON string literal.
pub fn request_body(url_literal: &str) -> (body: Vec<u8>)
    ensures
        body@ == encode_utf8(body_text_spec(url_literal@)),
{
    let text = String::from_str("{\"formats\":[\"markdown\"],\"url\":").concat(url_literal).concat(
        "}",
    );
    text.as_str().as_bytes_vec()
}

/// Assembles the request around a page address that is already written as
/// a JSON string literal.
///
/// The request is a `POST` to the endpoint of `verb` below
/// `https://api.firecrawl.dev`, follows every redirect, and carries the
/// headers `Authorization: Bearer ` with `credential` and
/// `Content-Type: application/json`, in this order.
pub fn request_around(verb: Verb, url_literal: &str, credential: &str) -> (request: HttpRequest)
    ensures
        request_matches(request, verb, url_literal@, credential@),
{
    let url = String::from_str("https://api.firecrawl.dev").concat(verb.endpoint());
    let mut headers: Vec<(String, String)> = Vec::new();
    headers.push(
        (String::from_str("Authorization"), String::from_str("Bearer ").concat(credential)),
    );
    headers.push((String::from_str("Content-Type"), String::from_str("application/json")));
    let body = request_body(url_literal);
    HttpRequest {
        method: HttpMethod::Post,
        redirect_policy: RedirectPolicy::FollowAll,
        url,
        headers,
        body: Some(body),
    }
}

/// Builds the request that asks the service to apply `verb` to the page at
/// `url`, authorized by `credential`. The address goes into the body as a
/// JSON string literal, untouched otherwise.
pub fn build_request(verb: Verb, url: &str, credential: &str) -> (request: HttpRequest)
    ensures
        request_matches(request, verb, json_string_text(url@), credential@),
{
    let literal = json_string(url);
    request_around(verb, literal.as_str(), credential)
}

/// Builds the request for a verb given by its keyword. A keyword that no
/// endpoint stands behind is `InvalidVerb`; for the others the request is
/// that of `build_request`.
pub fn build_request_for(verb_name: &str, url: &str, credential: &str) -> (r: Result<
    HttpRequest,
    Error,
>)
    ensures
        match Verb::named(verb_name@) {
            Some(verb) => r is Ok && request_matches(
                r->Ok_0,
                verb,
                json_string_text(url@),
                credential@,
            ),
            None => r == Err::<HttpRequest, Error>(Error::InvalidVerb),
        },
{
    match Verb::from_name(verb_name) {
        Ok(verb) => Ok(build_request(verb, url, credential)),
        Err(e) => Err(e),
    }
}

} // verus!
