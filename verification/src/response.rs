//! Classifying what came back from the service.

use vstd::prelude::*;
use crate::error::Error;

verus! {

/// What the service says about the page itself.
#[derive(Debug, Clone, PartialEq, Eq)]
pub struct ScrapeMetadata {
    pub title: String,
}

/// The page as the service rendered it.
#[derive(Debug, Clone, PartialEq, Eq)]
pub struct ScrapeData {
    pub markdown: String,
    pub metadata: ScrapeMetadata,
}

/// A reply of the service to a scrape request. Whatever else the service
/// sends along is not kept.
#[derive(Debug, Clone, PartialEq, Eq)]
pub struct ScrapeResponse {
    pub data: ScrapeData,
}

/// The body of a reply, once it has been read as JSON.
#[derive(Debug, Clone, PartialEq, Eq)]
pub enum Reply {
    /// The body has the shape of a scrape response.
    Decoded(ScrapeResponse),
    /// The body is not JSON, or lacks the markdown or the title; carries the
    /// decoder's message.
    Malformed(String),
}

/// What the decoder owes on the outcome of the exchange.
pub open spec fn decode_spec(transport_result: Result<Reply, String>) -> Result<
    ScrapeResponse,
    Error,
> {
    match transport_result {
        Err(detail) => Err(Error::FetchFailed(detail)),
        Ok(Reply::Malformed(detail)) => Err(Error::DecodeFailed(detail)),
        Ok(Reply::Decoded(response)) => Ok(response),
    }
}

/// Tells a failed exchange from an unreadable reply from a scrape response.
///
/// `transport_result` is the transport's error message, or the body it
/// delivered. A failed exchange is `FetchFailed` and an unreadable body is
/// `DecodeFailed`, each with the message it came with, unchanged. The
/// reply's status code plays no part.
pub fn decode(transport_result: Result<Reply, String>) -> (r: Result<ScrapeResponse, Error>)
    ensures
        r == decode_spec(transport_result),
{
    match transport_result {
        Err(detail) => Err(Error::FetchFailed(detail)),
        Ok(Reply::Malformed(detail)) => Err(Error::DecodeFailed(detail)),
        Ok(Reply::Decoded(response)) => Ok(response),
    }
}

} // verus!
