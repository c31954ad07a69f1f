//! Failure states of API sessions.
use vstd::prelude::*;

verus! {

/// The URL crate's parse error, carried through unchanged.
#[verifier::external_type_specification]
#[verifier::external_body]
pub struct ExUrlParseError(url::ParseError);

/// Violations and failure states encountered during API sessions.
#[derive(Debug)]
pub enum ApiError {
    /// The HTTP exchange itself failed (connection, TLS, body decoding); the transport's message.
    Transport(String),
    /// The node answered `400 Bad Request` with this message.
    BadRequest(String),
    /// The node refused the credentials or session, with this message.
    Unauthorized(String),
    /// The node answered `429 Too Many Requests` with this message.
    TooManyRequests(String),
    /// The node answered with a status code the exchange does not expect.
    UnexpectedStatusCode(u16),
    /// A URL could not be parsed or joined.
    UrlParseError(url::ParseError),
    /// Any other failure, with its message.
    Error(String),
}

} // verus!
