//! The ways in which one invocation of the command can fail.

use vstd::prelude::*;
use vstd::string::StringExecFns;

verus! {

/// Why an invocation ended without an output. Every failure is final: the
/// library never retries, and the caller sees one message.
#[derive(Debug, Clone, PartialEq, Eq)]
pub enum Error {
    /// The command name is not the one this library serves.
    UnknownCommand,
    /// No argument was given.
    MissingArgument,
    /// The single argument does not start with `http`.
    UnsupportedScheme,
    /// More than one argument was given.
    TooManyArguments,
    /// The environment holds no API key.
    MissingCredential,
    /// The HTTP exchange itself failed; carries the transport's message.
    FetchFailed(String),
    /// The reply could not be read as a scrape response; carries the
    /// decoder's message.
    DecodeFailed(String),
    /// The verb has no endpoint.
    InvalidVerb,
}

impl Error {
    /// The text shown to the caller for this failure.
    pub open spec fn message_spec(self) -> Seq<char> {
        match self {
            Error::UnknownCommand => "Invalid command. Expected 'firecrawl'."@,
            Error::MissingArgument => "Specify [parse|crawl] and where to scrape."@,
            Error::UnsupportedScheme => "Invalid verb/URL; only http/https are supported."@,
            Error::TooManyArguments => "Unexpected arguments. Expected 'URL'"@,
            Error::MissingCredential => "FIRECRAWL_API_KEY not found in environment"@,
            Error::FetchFailed(detail) => "Failed to fetch: "@ + detail@,
            Error::DecodeFailed(detail) => "Failed to deserialize response. Error: "@ + detail@,
            Error::InvalidVerb => "Invalid verb."@,
        }
    }

    /// Renders the failure as the single human-readable string that the
    /// caller receives.
    pub fn message(&self) -> (s: String)
        ensures
            s@ == self.message_spec(),
    {
        match self {
            Error::UnknownCommand => String::from_str("Invalid command. Expected 'firecrawl'."),
            Error::MissingArgument => String::from_str(
                "Specify [parse|crawl] and where to scrape.",
            ),
            Error::UnsupportedScheme => String::from_str(
                "Invalid verb/URL; only http/https are supported.",
            ),
            Error::TooManyArguments => String::from_str("Unexpected arguments. Expected 'URL'"),
            Error::MissingCredential => String::from_str(
                "FIRECRAWL_API_KEY not found in environment",
            ),
            Error::FetchFailed(detail) => String::from_str("Failed to fetch: ").concat(
                detail.as_str(),
            ),
            Error::DecodeFailed(detail) => String::from_str(
                "Failed to deserialize response. Error: ",
            ).concat(detail.as_str()),
            Error::InvalidVerb => String::from_str("Invalid verb."),
        }
    }
}

} // verus!
