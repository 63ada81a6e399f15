//! The error taxonomy shared by all components.

use vstd::prelude::*;

verus! {

/// Spec-level image of an [`Error`], with message payloads as character
/// sequences.
pub enum ErrorSpec {
    /// A token cannot be used as a header value.
    InvalidHeaderValue,
    /// The request to fetch a token failed, or the endpoint answered with an
    /// error response.
    OAuth2RequestFailed { message: Seq<char> },
    /// The endpoint's token response could not be parsed.
    OAuth2ParseError { message: Seq<char> },
    /// An outgoing request through the wrapped HTTP client failed.
    ReqwestFailed { message: Seq<char> },
}

/// Everything that can go wrong when fetching a token or sending an
/// authorized request.
///
/// A value of this type is also what the token cache holds after a failed
/// refresh: every read then reports the failure until a refresh succeeds.
#[derive(Debug)]
pub enum Error {
    /// A token cannot be used as a header value: it holds a character that is
    /// not allowed there (anything outside printable ASCII and the tab).
    InvalidHeaderValue,
    /// The request to fetch a token failed, or the endpoint answered with an
    /// error response.
    OAuth2RequestFailed(String),
    /// The endpoint's token response could not be parsed.
    OAuth2ParseError(String),
    /// An outgoing request through the wrapped HTTP client failed.
    ReqwestFailed(String),
}

impl View for Error {
    type V = ErrorSpec;

    open spec fn view(&self) -> ErrorSpec {
        match self {
            Error::InvalidHeaderValue => ErrorSpec::InvalidHeaderValue,
            Error::OAuth2RequestFailed(m) => ErrorSpec::OAuth2RequestFailed { message: m@ },
            Error::OAuth2ParseError(m) => ErrorSpec::OAuth2ParseError { message: m@ },
            Error::ReqwestFailed(m) => ErrorSpec::ReqwestFailed { message: m@ },
        }
    }
}

impl Clone for Error {
    fn clone(&self) -> (r: Self)
        ensures
            r@ == self@,
    {
        match self {
            Error::InvalidHeaderValue => Error::InvalidHeaderValue,
            Error::OAuth2RequestFailed(m) => Error::OAuth2RequestFailed(m.clone()),
            Error::OAuth2ParseError(m) => Error::OAuth2ParseError(m.clone()),
            Error::ReqwestFailed(m) => Error::ReqwestFailed(m.clone()),
        }
    }
}

} // verus!
