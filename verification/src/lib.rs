//! Client authentication middleware.
//!
//! The crate maintains a short-lived bearer credential for outbound HTTP/RPC
//! clients: a token fetched from an OAuth2-style endpoint is kept in a
//! single-slot cache, refreshed before expiry by a background loop, and read
//! by request paths as a ready-made authorization header value.
//!
//! The cache, the retry discipline around the token exchange, the refresh
//! scheduling and the header formatting are verified; performing the network
//! exchange, sleeping and task management are left to an embedding runtime,
//! which drives the verified state machines.

pub mod authorizers;
pub mod cache;
pub mod client;
pub mod client_credentials;
pub mod error;
pub mod fetch;
pub mod scheduler;
pub mod token;

pub use authorizers::{intercept_authorization, require_ascii, Authorizer, BearerTokenAuthorizer};
pub use cache::TokenCache;
pub use client::{HttpClient, HttpMethod};
pub use client_credentials::{
    ClientCredentialAuthorizer, ClientCredentialAuthorizerBuilder, FetchConfig,
};
pub use error::Error;
pub use fetch::{RetryDecision, RetryPolicy, TokenGrant};
pub use scheduler::RefreshAction;
pub use token::Token;
