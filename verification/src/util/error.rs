//! The error taxonomy of the library. Every operation reports failure through
//! one of these kinds; facades pass them on unchanged.

use vstd::prelude::*;

verus! {

/// Why a response body could not be turned into the expected value.
#[derive(Clone, Debug, PartialEq, Eq)]
pub enum ParseError {
    /// The body was not the JSON document the endpoint promises.
    Decode,
    /// The body parsed, but its outer shape was not the expected one:
    /// a post-scoped comment response whose array holds no listing.
    UnexpectedShape,
}

/// The error kinds a request pipeline operation can report.
#[derive(Clone, Debug, PartialEq, Eq)]
pub enum RouxError {
    /// An authenticated operation was attempted without username or password;
    /// found before any request is built.
    MissingCredentials,
    /// The transport failed (DNS, TLS, connection, timeout); the message is
    /// handed on verbatim.
    Transport(String),
    /// A response arrived with an unacceptable HTTP status; carries the
    /// status and the raw body for the caller's diagnosis.
    Status(u16, String),
    /// The login round trip succeeded at the transport level, but the body
    /// was the error-shaped variant; carries the upstream error code.
    Auth(String),
    /// The response body did not have the expected shape.
    Parse(ParseError),
}

} // verus!
