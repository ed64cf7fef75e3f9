//! The ways a fetch can fail.

use vstd::prelude::*;

verus! {

/// Why a fetch failed. Every failure ends the fetch; none is retried.
#[derive(Debug, Clone, PartialEq, Eq)]
pub enum FetchError {
    /// The URL begins with none of the permitted prefixes; nothing was sent.
    DomainNotAllowed,
    /// The HTTP client could not be built; the transport's message.
    ClientBuildError(String),
    /// The request could not be sent (DNS, connection, TLS); the transport's message.
    RequestError(String),
    /// The server answered with a status outside 200 to 299; the body was discarded.
    HttpStatusError(u16),
    /// The body could not be read to its end; the transport's message.
    BodyReadError(String),
    /// The body is not valid UTF-8: the decoder's description, and the first
    /// bytes of the body decoded lossily.
    DecodeError { reason: String, snippet: String },
}

} // verus!
