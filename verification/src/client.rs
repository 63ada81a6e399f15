//! A façade over `reqwest::Client` that adds the authorization header to
//! every request it builds, keeping it up to date through an [`Authorizer`].

use vstd::prelude::*;

use crate::authorizers::Authorizer;
use crate::cache::reflects_header;
use crate::error::Error;

verus! {

#[verifier::external_type_specification]
#[verifier::external_body]
pub struct ExReqwestClient(reqwest::Client);

#[verifier::external_type_specification]
#[verifier::external_body]
pub struct ExRequestBuilder(reqwest::RequestBuilder);

/// The method of an outgoing HTTP request.
#[derive(Clone, Copy, Debug, PartialEq, Eq)]
pub enum HttpMethod {
    /// A `GET` request.
    Get,
    /// A `POST` request.
    Post,
    /// A `PUT` request.
    Put,
    /// A `PATCH` request.
    Patch,
    /// A `DELETE` request.
    Delete,
    /// A `HEAD` request.
    Head,
}

/// Relies on `reqwest::Client::new` for the default client. Its documented
/// panic — a TLS backend or the system resolver failing to initialize — is
/// environmental, not a function of any input.
#[verifier::external_body]
fn default_reqwest_client() -> reqwest::Client {
    reqwest::Client::new()
}

/// Relies on `reqwest::Client::request` and `reqwest::RequestBuilder::header`
/// to start building a request with the given authorization header attached.
/// Neither call fails or panics: an unusable URL or header value is recorded
/// in the returned builder and surfaces when the request is sent.
#[verifier::external_body]
fn new_authorized_request(
    client: &reqwest::Client,
    method: HttpMethod,
    url: &str,
    header: &str,
) -> reqwest::RequestBuilder {
    let m = match method {
        HttpMethod::Get => reqwest::Method::GET,
        HttpMethod::Post => reqwest::Method::POST,
        HttpMethod::Put => reqwest::Method::PUT,
        HttpMethod::Patch => reqwest::Method::PATCH,
        HttpMethod::Delete => reqwest::Method::DELETE,
        HttpMethod::Head => reqwest::Method::HEAD,
    };
    client.request(m, url).header(reqwest::header::AUTHORIZATION, header)
}

/// Wrapper around `reqwest::Client` that adds the authorization header to
/// every request it starts, while keeping it up to date through an
/// [`Authorizer`].
///
/// Designed as a mostly drop-in replacement for `reqwest::Client`.
pub struct HttpClient<A: Authorizer> {
    authorizer: A,
    client: reqwest::Client,
}

impl<A: Authorizer> HttpClient<A> {
    /// The authorizer every built request draws its header from.
    pub closed spec fn spec_authorizer(&self) -> A {
        self.authorizer
    }

    /// Creates a client with the given authorizer and a default
    /// `reqwest::Client`.
    pub fn new(authorizer: A) -> (c: Self)
        ensures
            c.spec_authorizer() == authorizer,
    {
        HttpClient { authorizer, client: default_reqwest_client() }
    }

    /// Replaces the underlying `reqwest::Client`, for custom redirect
    /// policies, headers or timeouts.
    pub fn set_client(self, client: reqwest::Client) -> (r: Self)
        ensures
            r.spec_authorizer() == self.spec_authorizer(),
    {
        HttpClient { authorizer: self.authorizer, client }
    }

    /// Borrows the underlying `reqwest::Client`, for an embedding runtime
    /// that executes requests itself.
    pub fn client(&self) -> &reqwest::Client {
        &self.client
    }

    /// The authorization header currently used, or the failure that stands
    /// in its place — typically because the token refresh failed.
    pub fn authorization_header(&self) -> (r: Result<String, Error>)
        ensures
            reflects_header(r, self.spec_authorizer().spec_header()),
    {
        self.authorizer.authorization_header()
    }

    /// Starts building a request with the authorization header attached.
    /// Fails exactly when the authorizer has no usable header, with that
    /// failure.
    pub fn request(&self, method: HttpMethod, url: &str) -> (r: Result<
        reqwest::RequestBuilder,
        Error,
    >)
        ensures
            r is Ok <==> self.spec_authorizer().spec_header() is Ok,
            r matches Err(e) ==> (self.spec_authorizer().spec_header() matches Err(es) && e@
                == es),
    {
        match self.authorizer.authorization_header() {
            Ok(h) => Ok(new_authorized_request(&self.client, method, url, h.as_str())),
            Err(e) => Err(e),
        }
    }

    /// Starts building a `GET` request; fails as [`Self::request`] does.
    pub fn get(&self, url: &str) -> (r: Result<reqwest::RequestBuilder, Error>)
        ensures
            r is Ok <==> self.spec_authorizer().spec_header() is Ok,
            r matches Err(e) ==> (self.spec_authorizer().spec_header() matches Err(es) && e@
                == es),
    {
        self.request(HttpMethod::Get, url)
    }

    /// Starts building a `POST` request; fails as [`Self::request`] does.
    pub fn post(&self, url: &str) -> (r: Result<reqwest::RequestBuilder, Error>)
        ensures
            r is Ok <==> self.spec_authorizer().spec_header() is Ok,
            r matches Err(e) ==> (self.spec_authorizer().spec_header() matches Err(es) && e@
                == es),
    {
        self.request(HttpMethod::Post, url)
    }

    /// Starts building a `PUT` request; fails as [`Self::request`] does.
    pub fn put(&self, url: &str) -> (r: Result<reqwest::RequestBuilder, Error>)
        ensures
            r is Ok <==> self.spec_authorizer().spec_header() is Ok,
            r matches Err(e) ==> (self.spec_authorizer().spec_header() matches Err(es) && e@
                == es),
    {
        self.request(HttpMethod::Put, url)
    }

    /// Starts building a `PATCH` request; fails as [`Self::request`] does.
    pub fn patch(&self, url: &str) -> (r: Result<reqwest::RequestBuilder, Error>)
        ensures
            r is Ok <==> self.spec_authorizer().spec_header() is Ok,
            r matches Err(e) ==> (self.spec_authorizer().spec_header() matches Err(es) && e@
                == es),
    {
        self.request(HttpMethod::Patch, url)
    }

    /// Starts building a `DELETE` request; fails as [`Self::request`] does.
    pub fn delete(&self, url: &str) -> (r: Result<reqwest::RequestBuilder, Error>)
        ensures
            r is Ok <==> self.spec_authorizer().spec_header() is Ok,
            r matches Err(e) ==> (self.spec_authorizer().spec_header() matches Err(es) && e@
                == es),
    {
        self.request(HttpMethod::Delete, url)
    }

    /// Starts building a `HEAD` request; fails as [`Self::request`] does.
    pub fn head(&self, url: &str) -> (r: Result<reqwest::RequestBuilder, Error>)
        ensures
            r is Ok <==> self.spec_authorizer().spec_header() is Ok,
            r matches Err(e) ==> (self.spec_authorizer().spec_header() matches Err(es) && e@
                == es),
    {
        self.request(HttpMethod::Head, url)
    }
}

} // verus!
