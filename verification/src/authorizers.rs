//! Authorizers: sources of the current authorization header value, and the
//! decision made when a call is intercepted.

use vstd::prelude::*;
use vstd::string::*;

use crate::cache::reflects_header;
use crate::error::{Error, ErrorSpec};
use crate::token::{
    bearer_header, bearer_value, check_header_value, lemma_bearer_header_valid,
    valid_header_char, valid_header_value,
};

verus! {

/// A source of the authorization header to use for outgoing requests.
///
/// Reading the header never blocks and never triggers a fetch; it only
/// reports the source's current state. It fails when no usable token is
/// available — for example because the last background refresh failed.
pub trait Authorizer: Sized {
    /// The current header value, or the failure that stands in its place.
    spec fn spec_header(&self) -> Result<Seq<char>, ErrorSpec>;

    /// Returns the authorization header to use for requests, or the failure
    /// that stands in its place.
    fn authorization_header(&self) -> (r: Result<String, Error>)
        ensures
            reflects_header(r, self.spec_header()),
    ;
}

/// Ensures that a string is ASCII, failing with
/// [`Error::InvalidHeaderValue`] otherwise.
pub fn require_ascii(s: &str) -> (r: Result<(), Error>)
    ensures
        r is Ok <==> s.is_ascii(),
        r matches Err(e) ==> e@ == ErrorSpec::InvalidHeaderValue,
{
    if s.is_ascii() {
        Ok(())
    } else {
        Err(Error::InvalidHeaderValue)
    }
}

/// Attaches one fixed token to every request, with the bearer scheme. The
/// header value is computed once, at construction; reads never fail.
pub struct BearerTokenAuthorizer {
    header: String,
}

impl BearerTokenAuthorizer {
    /// The one header value this authorizer serves.
    pub closed spec fn spec_header_value(&self) -> Seq<char> {
        self.header@
    }

    /// Creates an authorizer from the given access token, passed without the
    /// `Bearer` prefix.
    ///
    /// Fails when `Bearer <token>` is not a usable header value, that is
    /// when the token holds anything outside printable ASCII and the tab.
    pub fn new(token: &str) -> (r: Result<BearerTokenAuthorizer, Error>)
        ensures
            valid_header_value(token@) ==> (r matches Ok(a) && a.spec_header_value()
                == bearer_header(token@)),
            !valid_header_value(token@) ==> (r matches Err(e) && e@
                == ErrorSpec::InvalidHeaderValue),
    {
        proof {
            if valid_header_value(token@) {
                assert forall|i: int| 0 <= i < token@.len() implies '\0' <= #[trigger] token@[i]
                    <= '\u{7f}' by {
                    assert(valid_header_char(token@[i]));
                }
            }
        }
        match require_ascii(token) {
            Err(e) => {
                return Err(e);
            },
            Ok(()) => {},
        }
        let header = bearer_value(token);
        proof {
            lemma_bearer_header_valid(token@);
        }
        if !check_header_value(header.as_str()) {
            return Err(Error::InvalidHeaderValue);
        }
        Ok(BearerTokenAuthorizer { header })
    }
}

impl Authorizer for BearerTokenAuthorizer {
    open spec fn spec_header(&self) -> Result<Seq<char>, ErrorSpec> {
        Ok(self.spec_header_value())
    }

    fn authorization_header(&self) -> (r: Result<String, Error>) {
        Ok(self.header.clone())
    }
}

/// The decision made immediately before a call is sent: what header value to
/// attach, if any.
///
/// A call that already carries an authorization header is left unmodified —
/// `Ok(None)` — and the authorizer is not consulted, as the body shows: its
/// state, available or failed, plays no part in that branch. Otherwise the
/// authorizer's current header is attached, and a failed authorizer fails
/// the call rather than letting it go out without credentials.
pub fn intercept_authorization<A: Authorizer>(authorizer: &A, has_authorization_header: bool) -> (r:
    Result<Option<String>, Error>)
    ensures
        has_authorization_header ==> (r matches Ok(h) && h is None),
        !has_authorization_header ==> (match r {
            Ok(h) => h matches Some(s) && authorizer.spec_header() matches Ok(hs) && s@ == hs,
            Err(e) => authorizer.spec_header() matches Err(es) && e@ == es,
        }),
{
    if has_authorization_header {
        Ok(None)
    } else {
        match authorizer.authorization_header() {
            Ok(h) => Ok(Some(h)),
            Err(e) => Err(e),
        }
    }
}

} // verus!
