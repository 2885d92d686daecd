//! The command from end to end, in the two steps that lie on either side of
//! the HTTP exchange: what to send, and what to make of the reply.
//!
//! The exchange itself is the caller's: it sends the request that `prepare`
//! built and hands the outcome to `finish`. Each step ends the invocation
//! on its first failure; nothing is retried and nothing is kept.

use vstd::prelude::*;
use crate::command::{validate, validate_spec, views, Verb};
use crate::credential::{is_first_key, lacks_key, resolve};
use crate::error::Error;
use crate::normalize::{normalize, normalize_spec};
use crate::output::{assemble, byte_len, label_spec, Output};
use crate::request::{build_request, json_string_text, request_matches, HttpRequest};
use crate::response::{decode, decode_spec, Reply};

verus! {

/// What `prepare` settles: the page that is asked for and the request that
/// asks for it.
#[derive(Debug, Clone, PartialEq, Eq)]
pub struct Plan {
    /// The address of the page, as it was given.
    pub url: String,
    /// The request to send.
    pub request: HttpRequest,
}

/// Whether `plan` is the plan for the page at `url`, asked for with `verb`
/// and authorized by the first API key of `env`.
pub open spec fn plan_matches(
    plan: Plan,
    verb: Verb,
    url: Seq<char>,
    env: Seq<(String, String)>,
) -> bool {
    &&& plan.url@ == url
    &&& exists|i: int|
        is_first_key(env, i) && request_matches(
            plan.request,
            verb,
            json_string_text(url),
            #[trigger] env[i].1@,
        )
}

/// The first half of an invocation: reads the arguments, finds the
/// credential and builds the request.
///
/// The arguments are judged first: a failure of theirs is reported whatever
/// the environment holds. With good arguments and no API key the result is
/// `MissingCredential`. Otherwise the plan names the single argument as the
/// page and holds the request for it. No request is built on a failure, so
/// none can be sent.
pub fn prepare(command_name: &str, args: &Vec<String>, env: &Vec<(String, String)>) -> (r: Result<
    Plan,
    Error,
>)
    ensures
        match validate_spec(command_name@, views(args@)) {
            Err(e) => r == Err::<Plan, Error>(e),
            Ok((verb, url)) => if lacks_key(env@) {
                r == Err::<Plan, Error>(Error::MissingCredential)
            } else {
                r is Ok && plan_matches(r->Ok_0, verb, url, env@)
            },
        },
{
    let (verb, url) = match validate(command_name, args) {
        Ok(target) => target,
        Err(e) => {
            return Err(e);
        },
    };
    let credential = match resolve(env) {
        Ok(value) => value,
        Err(e) => {
            return Err(e);
        },
    };
    let request = build_request(verb, url.as_str(), credential.as_str());
    Ok(Plan { url, request })
}

/// Whether `out` is the output for the page at `url` whose markdown and
/// title are the given ones.
pub open spec fn output_matches(
    out: Output,
    markdown: Seq<char>,
    title: Seq<char>,
    url: Seq<char>,
) -> bool {
    &&& out.text@ == normalize_spec(markdown, url)
    &&& out.spans_whole_text()
    &&& out.sections@[0].label@ == label_spec(title, url)
}

/// Whether the text that `finish` would produce fits a section's range.
pub open spec fn reply_fits(url: Seq<char>, transport_result: Result<Reply, String>) -> bool {
    match transport_result {
        Ok(Reply::Decoded(response)) => byte_len(normalize_spec(response.data.markdown@, url))
            <= u32::MAX,
        _ => true,
    }
}

/// The second half of an invocation: classifies the outcome of the
/// exchange and, for a scrape response, produces the output.
///
/// A failed exchange is `FetchFailed` and an unreadable body is
/// `DecodeFailed`, each with its message; nothing of the body reaches an
/// output then. For a scrape response the text is the normalized markdown
/// behind the header line for `url`, and the single section spans it and is
/// labelled with the title and `url`.
pub fn finish(url: &str, transport_result: Result<Reply, String>) -> (r: Result<Output, Error>)
    requires
        reply_fits(url@, transport_result),
    ensures
        match decode_spec(transport_result) {
            Err(e) => r == Err::<Output, Error>(e),
            Ok(response) => r is Ok && output_matches(
                r->Ok_0,
                response.data.markdown@,
                response.data.metadata.title@,
                url@,
            ),
        },
{
    let response = match decode(transport_result) {
        Ok(response) => response,
        Err(e) => {
            return Err(e);
        },
    };
    let text = normalize(response.data.markdown.as_str(), url);
    Ok(assemble(text, response.data.metadata.title.as_str(), url))
}

} // verus!
