//! Authentication with an OAuth2 server using client credentials: the
//! configuration builder, and the authorizer core that ties the token cache,
//! the fetcher's retry discipline and the refresh scheduler together.
//!
//! Performing the token exchange, sleeping and spawning the background loop
//! are outside work; an embedding runtime drives them with the decisions
//! made here, handing every exchange outcome back to
//! [`ClientCredentialAuthorizer::apply_refresh_outcome`].

use vstd::prelude::*;
use vstd::string::*;

use crate::authorizers::Authorizer;
use crate::cache::{header_of, TokenCache};
use crate::error::{Error, ErrorSpec};
use crate::fetch::{
    outcome_view, spec_state_from_outcome, state_from_outcome, RetryPolicy, TokenGrant,
    TokenGrantView,
};
use crate::scheduler::{next_action, spec_next_action, spec_should_spawn, RefreshAction};
use crate::token::{bearer_header, valid_header_value, TokenView};

verus! {

#[verifier::external_type_specification]
#[verifier::external_body]
pub struct ExUrl(url::Url);

/// Default number of consecutive retries for token requests.
pub const DEFAULT_MAX_RETRIES: u32 = 3;

/// Default interval between consecutive retries, in milliseconds.
pub const DEFAULT_RETRY_INTERVAL_MS: u64 = 10;

/// Default refresh tolerance, in milliseconds: tokens are refreshed this
/// long before they expire.
pub const DEFAULT_REFRESH_TOLERANCE_MS: u64 = 30_000;

/// Spec-level image of the logical configuration a builder has gathered.
/// The token endpoint and a custom HTTP client are opaque values carried
/// through; the view records only whether a custom client was set.
pub struct BuilderView {
    /// The client identity presented to the endpoint.
    pub client_id: Seq<char>,
    /// The client's own credential for the exchange.
    pub client_secret: Seq<char>,
    /// Scopes requested in the token, in the order they were added.
    pub scopes: Seq<Seq<char>>,
    /// Extra parameters of the token request, in the order they were added;
    /// a later pair supersedes an earlier one with the same name.
    pub extra_params: Seq<(Seq<char>, Seq<char>)>,
    /// Maximum retry count, if set.
    pub max_retries: Option<u32>,
    /// Retry interval in milliseconds, if set.
    pub retry_interval_ms: Option<u64>,
    /// Whether a custom HTTP client was set.
    pub has_http_client: bool,
    /// Whether background refresh is enabled.
    pub enable_refresh: bool,
    /// Refresh tolerance in milliseconds, if set.
    pub refresh_tolerance_ms: Option<u64>,
}

/// The string-to-string mapping a parameter list denotes: a later pair
/// supersedes an earlier one with the same name.
pub open spec fn params_map(s: Seq<(Seq<char>, Seq<char>)>) -> Map<Seq<char>, Seq<char>>
    decreases s.len(),
{
    if s.len() == 0 {
        Map::empty()
    } else {
        params_map(s.drop_last()).insert(s.last().0, s.last().1)
    }
}

/// Appending a pair is, at the mapping level, exactly an insert.
pub proof fn lemma_params_map_push(s: Seq<(Seq<char>, Seq<char>)>, name: Seq<char>, value: Seq<
    char,
>)
    ensures
        params_map(s.push((name, value))) == params_map(s).insert(name, value),
{
    assert(s.push((name, value)).drop_last() =~= s);
}

/// Builder for [`ClientCredentialAuthorizer`].
///
/// The following configuration is available:
/// * `max_retries`: number of consecutive retries for token requests,
///   [`DEFAULT_MAX_RETRIES`] by default;
/// * `retry_interval_ms`: interval between consecutive retries,
///   [`DEFAULT_RETRY_INTERVAL_MS`] by default;
/// * `http_client`: custom `reqwest::Client` for token requests — the
///   embedding runtime otherwise uses one with redirects disabled;
/// * `scopes`: scopes to request in the token, empty by default;
/// * `extra_params`: extra parameters of the token request, empty by
///   default;
/// * `enable_refresh`: background refresh, enabled by default;
/// * `refresh_tolerance_ms`: how long before expiry a token is refreshed,
///   [`DEFAULT_REFRESH_TOLERANCE_MS`] by default.
pub struct ClientCredentialAuthorizerBuilder {
    client_id: String,
    client_secret: String,
    token_url: url::Url,
    max_retries: Option<u32>,
    retry_interval_ms: Option<u64>,
    http_client: Option<reqwest::Client>,
    scopes: Vec<String>,
    extra_params: Vec<(String, String)>,
    enable_refresh: bool,
    refresh_tolerance_ms: Option<u64>,
}

impl View for ClientCredentialAuthorizerBuilder {
    type V = BuilderView;

    closed spec fn view(&self) -> BuilderView {
        BuilderView {
            client_id: self.client_id@,
            client_secret: self.client_secret@,
            scopes: self.scopes.deep_view(),
            extra_params: self.extra_params.deep_view(),
            max_retries: self.max_retries,
            retry_interval_ms: self.retry_interval_ms,
            has_http_client: self.http_client is Some,
            enable_refresh: self.enable_refresh,
            refresh_tolerance_ms: self.refresh_tolerance_ms,
        }
    }
}

impl ClientCredentialAuthorizerBuilder {
    /// Creates a builder from a client id, client secret and token endpoint,
    /// with everything else at its default.
    pub fn new(client_id: &str, client_secret: &str, token_url: url::Url) -> (b:
        ClientCredentialAuthorizerBuilder)
        ensures
            b@ == (BuilderView {
                client_id: client_id@,
                client_secret: client_secret@,
                scopes: Seq::<Seq<char>>::empty(),
                extra_params: Seq::<(Seq<char>, Seq<char>)>::empty(),
                max_retries: None,
                retry_interval_ms: None,
                has_http_client: false,
                enable_refresh: true,
                refresh_tolerance_ms: None,
            }),
    {
        let b = ClientCredentialAuthorizerBuilder {
            client_id: String::from_str(client_id),
            client_secret: String::from_str(client_secret),
            token_url,
            max_retries: None,
            retry_interval_ms: None,
            http_client: None,
            scopes: Vec::new(),
            extra_params: Vec::new(),
            enable_refresh: true,
            refresh_tolerance_ms: None,
        };
        proof {
            assert(b@.scopes =~= Seq::<Seq<char>>::empty());
            assert(b@.extra_params =~= Seq::<(Seq<char>, Seq<char>)>::empty());
        }
        b
    }

    /// Optionally sets the `reqwest::Client` used for token requests. When
    /// setting a custom client, make sure its redirect policy is disabled to
    /// prevent SSRF vulnerabilities; the default client used otherwise has
    /// redirects disabled.
    pub fn set_http_client(self, client: reqwest::Client) -> (r: Self)
        ensures
            r@ == (BuilderView { has_http_client: true, ..self@ }),
    {
        ClientCredentialAuthorizerBuilder { http_client: Some(client), ..self }
    }

    /// Optionally sets the maximum number of retries when fetching a token.
    pub fn set_max_retries(self, max_retries: u32) -> (r: Self)
        ensures
            r@ == (BuilderView { max_retries: Some(max_retries), ..self@ }),
    {
        ClientCredentialAuthorizerBuilder { max_retries: Some(max_retries), ..self }
    }

    /// Optionally sets the retry interval, in milliseconds, when fetching a
    /// token.
    pub fn set_retry_interval(self, retry_interval_ms: u64) -> (r: Self)
        ensures
            r@ == (BuilderView { retry_interval_ms: Some(retry_interval_ms), ..self@ }),
    {
        ClientCredentialAuthorizerBuilder { retry_interval_ms: Some(retry_interval_ms), ..self }
    }

    /// Adds a scope to the token request.
    pub fn add_scope(self, scope: &str) -> (r: Self)
        ensures
            r@ == (BuilderView { scopes: self@.scopes.push(scope@), ..self@ }),
    {
        let mut scopes = self.scopes;
        scopes.push(String::from_str(scope));
        let r = ClientCredentialAuthorizerBuilder { scopes, ..self };
        proof {
            assert(r@.scopes =~= self@.scopes.push(scope@));
        }
        r
    }

    /// Adds multiple scopes to the token request, in order.
    pub fn add_scopes(self, scopes: &[String]) -> (r: Self)
        ensures
            r@ == (BuilderView { scopes: self@.scopes + scopes.deep_view(), ..self@ }),
    {
        let ghost orig = self@;
        let mut r = self;
        let mut i: usize = 0;
        while i < scopes.len()
            invariant
                0 <= i <= scopes.len(),
                r@ == (BuilderView {
                    scopes: orig.scopes + scopes.deep_view().take(i as int),
                    ..orig
                }),
            decreases scopes.len() - i,
        {
            let scope: &String = &scopes[i];
            r = r.add_scope(scope.as_str());
            proof {
                assert(orig.scopes + scopes.deep_view().take(i + 1 as int) =~= (orig.scopes
                    + scopes.deep_view().take(i as int)).push(scopes.deep_view()[i as int]));
            }
            i += 1;
        }
        proof {
            assert(scopes.deep_view().take(scopes.len() as int) =~= scopes.deep_view());
        }
        r
    }

    /// Appends an extra parameter to the token request. At the mapping
    /// level this is an insert: a pair added later supersedes an earlier one
    /// with the same name (see [`params_map`]).
    pub fn add_extra_param(self, name: &str, value: &str) -> (r: Self)
        ensures
            r@ == (BuilderView {
                extra_params: self@.extra_params.push((name@, value@)),
                ..self@
            }),
            params_map(r@.extra_params) == params_map(self@.extra_params).insert(name@, value@),
    {
        let mut extra_params = self.extra_params;
        extra_params.push((String::from_str(name), String::from_str(value)));
        let r = ClientCredentialAuthorizerBuilder { extra_params, ..self };
        proof {
            assert(r@.extra_params =~= self@.extra_params.push((name@, value@)));
            lemma_params_map_push(self@.extra_params, name@, value@);
        }
        r
    }

    /// Disables background refresh: the token fetched at construction is
    /// then never replaced.
    pub fn disable_refresh(self) -> (r: Self)
        ensures
            r@ == (BuilderView { enable_refresh: false, ..self@ }),
    {
        ClientCredentialAuthorizerBuilder { enable_refresh: false, ..self }
    }

    /// Sets the refresh tolerance, in milliseconds: tokens are refreshed
    /// this long before they expire.
    pub fn refresh_tolerance(self, tolerance_ms: u64) -> (r: Self)
        ensures
            r@ == (BuilderView { refresh_tolerance_ms: Some(tolerance_ms), ..self@ }),
    {
        ClientCredentialAuthorizerBuilder { refresh_tolerance_ms: Some(tolerance_ms), ..self }
    }

    /// Resolves the configuration, applying the documented default for
    /// everything left unset.
    pub fn into_config(self) -> (c: FetchConfig)
        ensures
            c@ == (ConfigView {
                client_id: self@.client_id,
                client_secret: self@.client_secret,
                scopes: self@.scopes,
                extra_params: self@.extra_params,
                max_retries: match self@.max_retries {
                    Some(n) => n,
                    None => DEFAULT_MAX_RETRIES,
                },
                retry_interval_ms: match self@.retry_interval_ms {
                    Some(n) => n,
                    None => DEFAULT_RETRY_INTERVAL_MS,
                },
                tolerance_ms: match self@.refresh_tolerance_ms {
                    Some(n) => n,
                    None => DEFAULT_REFRESH_TOLERANCE_MS,
                },
                enable_refresh: self@.enable_refresh,
            }),
    {
        FetchConfig {
            client_id: self.client_id,
            client_secret: self.client_secret,
            token_url: self.token_url,
            http_client: self.http_client,
            scopes: self.scopes,
            extra_params: self.extra_params,
            max_retries: match self.max_retries {
                Some(n) => n,
                None => DEFAULT_MAX_RETRIES,
            },
            retry_interval_ms: match self.retry_interval_ms {
                Some(n) => n,
                None => DEFAULT_RETRY_INTERVAL_MS,
            },
            tolerance_ms: match self.refresh_tolerance_ms {
                Some(n) => n,
                None => DEFAULT_REFRESH_TOLERANCE_MS,
            },
            enable_refresh: self.enable_refresh,
        }
    }
}

/// Spec-level image of a resolved [`FetchConfig`]; the token endpoint and
/// the HTTP client are opaque values carried through.
pub struct ConfigView {
    /// The client identity presented to the endpoint.
    pub client_id: Seq<char>,
    /// The client's own credential for the exchange.
    pub client_secret: Seq<char>,
    /// Scopes requested in the token.
    pub scopes: Seq<Seq<char>>,
    /// Extra parameters of the token request; see [`params_map`].
    pub extra_params: Seq<(Seq<char>, Seq<char>)>,
    /// Maximum retry count.
    pub max_retries: u32,
    /// Retry interval in milliseconds.
    pub retry_interval_ms: u64,
    /// Refresh tolerance in milliseconds.
    pub tolerance_ms: u64,
    /// Whether background refresh is enabled.
    pub enable_refresh: bool,
}

/// The immutable configuration captured at construction, owned by the
/// authorizer for its full lifetime.
pub struct FetchConfig {
    /// The client identity presented to the endpoint.
    pub client_id: String,
    /// The client's own credential for the exchange.
    pub client_secret: String,
    /// The token endpoint.
    pub token_url: url::Url,
    /// A custom HTTP client for token requests, if one was set.
    pub http_client: Option<reqwest::Client>,
    /// Scopes requested in the token.
    pub scopes: Vec<String>,
    /// Extra parameters of the token request.
    pub extra_params: Vec<(String, String)>,
    /// Maximum retry count.
    pub max_retries: u32,
    /// Retry interval in milliseconds.
    pub retry_interval_ms: u64,
    /// Refresh tolerance in milliseconds.
    pub tolerance_ms: u64,
    /// Whether background refresh is enabled.
    pub enable_refresh: bool,
}

impl View for FetchConfig {
    type V = ConfigView;

    open spec fn view(&self) -> ConfigView {
        ConfigView {
            client_id: self.client_id@,
            client_secret: self.client_secret@,
            scopes: self.scopes.deep_view(),
            extra_params: self.extra_params.deep_view(),
            max_retries: self.max_retries,
            retry_interval_ms: self.retry_interval_ms,
            tolerance_ms: self.tolerance_ms,
            enable_refresh: self.enable_refresh,
        }
    }
}

impl FetchConfig {
    /// The bounded-retry policy of this configuration.
    pub fn retry_policy(&self) -> (p: RetryPolicy)
        ensures
            p.max_retries == self@.max_retries,
            p.retry_interval_ms == self@.retry_interval_ms,
    {
        RetryPolicy { max_retries: self.max_retries, retry_interval_ms: self.retry_interval_ms }
    }
}

/// Authenticates with an OAuth2 server using client credentials.
///
/// The core holds the immutable configuration and the single-slot token
/// cache. Construction requires the outcome of one initial exchange: on a
/// failure no authorizer is created; on a grant the cache is populated
/// before anything can read it. An embedding runtime then drives the
/// background refresh with [`Self::next_refresh_action`] and
/// [`Self::apply_refresh_outcome`].
pub struct ClientCredentialAuthorizer {
    config: FetchConfig,
    cache: TokenCache,
}

impl ClientCredentialAuthorizer {
    /// The resolved configuration.
    pub closed spec fn spec_config(&self) -> ConfigView {
        self.config@
    }

    /// The current cache state.
    pub closed spec fn spec_cache(&self) -> Result<TokenView, ErrorSpec> {
        self.cache@
    }

    /// Creates a builder from a client id, client secret and token endpoint.
    pub fn basic_builder(client_id: &str, client_secret: &str, token_url: url::Url) -> (b:
        ClientCredentialAuthorizerBuilder)
        ensures
            b@ == (BuilderView {
                client_id: client_id@,
                client_secret: client_secret@,
                scopes: Seq::<Seq<char>>::empty(),
                extra_params: Seq::<(Seq<char>, Seq<char>)>::empty(),
                max_retries: None,
                retry_interval_ms: None,
                has_http_client: false,
                enable_refresh: true,
                refresh_tolerance_ms: None,
            }),
    {
        ClientCredentialAuthorizerBuilder::new(client_id, client_secret, token_url)
    }

    /// Constructs the authorizer from the outcome of the initial token
    /// exchange, made at `now_ms`.
    ///
    /// A failed exchange fails construction with that failure: no cache is
    /// created. A grant populates the cache — with the encoding failure in
    /// place of a token whose secret cannot be represented as a header value
    /// — and the accompanying flag says whether a background refresh loop is
    /// owed: exactly when refresh is enabled and the grant reported a finite
    /// lifetime.
    pub fn from_initial_exchange(
        config: FetchConfig,
        outcome: Result<TokenGrant, Error>,
        now_ms: u64,
    ) -> (r: Result<(ClientCredentialAuthorizer, bool), Error>)
        ensures
            outcome_view(outcome) matches Err(e) ==> (r matches Err(e2) && e2@ == e),
            outcome_view(outcome) matches Ok(g) ==> (r matches Ok(p) && p.0.spec_config()
                == config@ && p.0.spec_cache() == spec_state_from_outcome(Ok(g), now_ms) && p.1
                == spec_should_spawn(config@.enable_refresh, g.lifetime_ms)),
    {
        match outcome {
            Err(e) => Err(e),
            Ok(grant) => {
                let spawn = crate::scheduler::should_spawn_refresh(
                    config.enable_refresh,
                    grant.lifetime_ms,
                );
                let state = state_from_outcome(Ok(grant), now_ms);
                let authorizer = ClientCredentialAuthorizer {
                    config,
                    cache: TokenCache::new(state),
                };
                Ok((authorizer, spawn))
            },
        }
    }

    /// The resolved configuration, for the runtime that performs the
    /// exchanges.
    pub fn config(&self) -> (c: &FetchConfig)
        ensures
            c@ == self.spec_config(),
    {
        &self.config
    }

    /// What the refresh loop does next, decided against the current cache
    /// snapshot at `now_ms`; see [`spec_next_action`].
    pub fn next_refresh_action(&self, now_ms: u64) -> (a: RefreshAction)
        ensures
            a == spec_next_action(self.spec_cache(), now_ms, self.spec_config().tolerance_ms),
    {
        next_action(self.cache.state(), now_ms, self.config.tolerance_ms)
    }

    /// Records the outcome of a refresh exchange made at `now_ms`,
    /// overwriting the cache unconditionally: a failure is recorded in place
    /// of the previous — possibly already expired — token, so readers detect
    /// staleness rather than being served an expired credential.
    pub fn apply_refresh_outcome(&mut self, outcome: Result<TokenGrant, Error>, now_ms: u64)
        ensures
            final (self).spec_cache() == spec_state_from_outcome(outcome_view(outcome), now_ms),
            final (self).spec_config() == old(self).spec_config(),
    {
        let state = state_from_outcome(outcome, now_ms);
        self.cache.replace(state);
    }
}

impl Authorizer for ClientCredentialAuthorizer {
    open spec fn spec_header(&self) -> Result<Seq<char>, ErrorSpec> {
        header_of(self.spec_cache())
    }

    fn authorization_header(&self) -> (r: Result<String, Error>) {
        self.cache.header_value()
    }
}

/// A successful exchange followed by a read: for any grant whose secret is
/// representable as a header value, the state it is recorded as serves
/// exactly that secret formatted with the bearer scheme.
pub proof fn lemma_issued_secret_served(g: TokenGrantView, now_ms: u64)
    requires
        valid_header_value(g.secret),
    ensures
        header_of(spec_state_from_outcome(Ok(g), now_ms)) == Ok::<Seq<char>, ErrorSpec>(
            bearer_header(g.secret),
        ),
{
}

} // verus!
