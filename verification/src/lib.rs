//! A slash command that fetches one web page as markdown through the
//! Firecrawl scraping service and packages it as a labelled text block.
//!
//! The library holds every decision of the command: which arguments are
//! accepted, where the credential comes from, what the outgoing request
//! looks like, how the reply is classified, how the markdown is tidied and
//! how the final output is assembled. Performing the HTTP exchange itself
//! is left to the caller.

pub mod text;
pub mod error;
pub mod command;
pub mod credential;
pub mod normalize;
pub mod normalize_laws;
pub mod request;
pub mod response;
pub mod output;
pub mod pipeline;
