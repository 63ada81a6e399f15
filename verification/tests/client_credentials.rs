use middle::{
    Authorizer, ClientCredentialAuthorizer, ClientCredentialAuthorizerBuilder, Error,
    RefreshAction, TokenGrant,
};
use url::Url;

fn token_url() -> Url {
    Url::parse("https://identity.example.com/my-tenant/oauth2/token").unwrap()
}

fn grant(secret: &str, lifetime_ms: Option<u64>) -> Result<TokenGrant, Error> {
    Ok(TokenGrant {
        secret: secret.to_string(),
        lifetime_ms,
    })
}

#[test]
fn test_builder_defaults() {
    let config = ClientCredentialAuthorizerBuilder::new("my-client", "my-secret", token_url())
        .into_config();
    assert_eq!(config.client_id, "my-client");
    assert_eq!(config.client_secret, "my-secret");
    assert_eq!(config.max_retries, 3);
    assert_eq!(config.retry_interval_ms, 10);
    assert_eq!(config.tolerance_ms, 30_000);
    assert!(config.enable_refresh);
    assert!(config.scopes.is_empty());
    assert!(config.extra_params.is_empty());
    assert!(config.http_client.is_none());
}

#[test]
fn test_builder_settings() {
    let config = ClientCredentialAuthorizerBuilder::new("my-client", "my-secret", token_url())
        .set_max_retries(5)
        .set_retry_interval(250)
        .refresh_tolerance(60_000)
        .disable_refresh()
        .add_scope("my-scope")
        .add_scopes(&["my-other-scope".to_string(), "third".to_string()])
        .add_extra_param("audience", "my-api")
        .into_config();
    assert_eq!(config.max_retries, 5);
    assert_eq!(config.retry_interval_ms, 250);
    assert_eq!(config.tolerance_ms, 60_000);
    assert!(!config.enable_refresh);
    assert_eq!(config.scopes, vec!["my-scope", "my-other-scope", "third"]);
    assert_eq!(
        config.extra_params,
        vec![("audience".to_string(), "my-api".to_string())]
    );
}

#[test]
fn test_extra_param_added_later_supersedes() {
    let config = ClientCredentialAuthorizerBuilder::new("my-client", "my-secret", token_url())
        .add_extra_param("audience", "first")
        .add_extra_param("audience", "second")
        .into_config();
    // Both pairs are kept in order; the one added later supersedes the
    // earlier at the mapping level.
    assert_eq!(config.extra_params.last().unwrap().1, "second");
}

#[test]
fn test_client_credentials() {
    // The endpoint issues `my-issued-token` with a one-hour lifetime: an
    // immediate read returns it formatted with the bearer scheme, and a
    // refresh loop is owed.
    let config = ClientCredentialAuthorizerBuilder::new("my-client", "my-secret", token_url())
        .add_scope("my-scope")
        .add_scope("my-other-scope")
        .into_config();
    let (authorizer, spawn) = ClientCredentialAuthorizer::from_initial_exchange(
        config,
        grant("my-issued-token", Some(3_600_000)),
        0,
    )
    .unwrap();
    assert!(spawn);
    assert_eq!(
        authorizer.authorization_header().unwrap(),
        "Bearer my-issued-token"
    );
}

#[test]
fn test_expiring_token_scenario() {
    // Issued `abc` with `expires_in` one hour and a 30 s tolerance: the
    // immediate read returns `Bearer abc`, and the loop's only action until
    // 3570 s is that one sleep — the next exchange call occurs at 3570 s.
    let config = ClientCredentialAuthorizerBuilder::new("my-client", "my-secret", token_url())
        .refresh_tolerance(30_000)
        .into_config();
    let (authorizer, spawn) =
        ClientCredentialAuthorizer::from_initial_exchange(config, grant("abc", Some(3_600_000)), 0)
            .unwrap();
    assert!(spawn);
    assert_eq!(authorizer.authorization_header().unwrap(), "Bearer abc");
    assert_eq!(
        authorizer.next_refresh_action(0),
        RefreshAction::Sleep(3_570_000)
    );
}

#[test]
fn test_non_expiring_token_scenario() {
    // Issued `abc` without `expires_in`: the immediate read returns
    // `Bearer abc`, no loop is started, and even a running loop would stop.
    let config = ClientCredentialAuthorizerBuilder::new("my-client", "my-secret", token_url())
        .into_config();
    let (authorizer, spawn) =
        ClientCredentialAuthorizer::from_initial_exchange(config, grant("abc", None), 0).unwrap();
    assert!(!spawn);
    assert_eq!(authorizer.authorization_header().unwrap(), "Bearer abc");
    assert_eq!(authorizer.next_refresh_action(12_345), RefreshAction::Stop);
}

#[test]
fn test_failed_construction_creates_nothing() {
    // The initial fetch failed for good: construction fails with that
    // cause, and no authorizer or cache exists.
    let config = ClientCredentialAuthorizerBuilder::new("my-client", "my-secret", token_url())
        .into_config();
    let r = ClientCredentialAuthorizer::from_initial_exchange(
        config,
        Err(Error::OAuth2RequestFailed("HTTP 500".to_string())),
        0,
    );
    assert!(matches!(r, Err(Error::OAuth2RequestFailed(m)) if m == "HTTP 500"));

    // Retrying construction is a fresh, independent attempt: the same
    // configuration with a successful exchange constructs normally.
    let config = ClientCredentialAuthorizerBuilder::new("my-client", "my-secret", token_url())
        .into_config();
    let r = ClientCredentialAuthorizer::from_initial_exchange(
        config,
        grant("abc", Some(3_600_000)),
        0,
    );
    assert!(r.is_ok());
}

#[test]
fn test_unavailable_until_next_success() {
    // After a failed refresh every read reports the failure — the prior,
    // possibly expired token is never served again — until a refresh
    // succeeds.
    let config = ClientCredentialAuthorizerBuilder::new("my-client", "my-secret", token_url())
        .into_config();
    let (mut authorizer, _) =
        ClientCredentialAuthorizer::from_initial_exchange(config, grant("abc", Some(1_000)), 0)
            .unwrap();
    assert_eq!(authorizer.authorization_header().unwrap(), "Bearer abc");

    authorizer.apply_refresh_outcome(Err(Error::OAuth2RequestFailed("down".to_string())), 1_000);
    assert!(matches!(
        authorizer.authorization_header(),
        Err(Error::OAuth2RequestFailed(m)) if m == "down"
    ));

    authorizer.apply_refresh_outcome(Err(Error::OAuth2ParseError("still down".to_string())), 2_000);
    assert!(matches!(
        authorizer.authorization_header(),
        Err(Error::OAuth2ParseError(m)) if m == "still down"
    ));

    authorizer.apply_refresh_outcome(grant("def", Some(1_000)), 3_000);
    assert_eq!(authorizer.authorization_header().unwrap(), "Bearer def");
}

#[test]
fn test_refresh_replaces_token() {
    // A second and a third exchange each replace the token: reads always
    // see the most recent one.
    let config = ClientCredentialAuthorizerBuilder::new("my-client", "my-secret", token_url())
        .refresh_tolerance(0)
        .into_config();
    let (mut authorizer, _) =
        ClientCredentialAuthorizer::from_initial_exchange(config, grant("one", Some(2_000)), 0)
            .unwrap();
    assert_eq!(authorizer.next_refresh_action(0), RefreshAction::Sleep(2_000));

    authorizer.apply_refresh_outcome(grant("two", Some(2_000)), 2_000);
    assert_eq!(authorizer.authorization_header().unwrap(), "Bearer two");

    authorizer.apply_refresh_outcome(grant("three", Some(2_000)), 4_000);
    assert_eq!(authorizer.authorization_header().unwrap(), "Bearer three");
}

#[test]
fn test_encoding_failure_after_successful_exchange() {
    // The exchange succeeded but the secret cannot stand in a header:
    // construction itself succeeds, the cache records the encoding failure,
    // and — since the grant reported a lifetime — the refresh loop is still
    // owed.
    let config = ClientCredentialAuthorizerBuilder::new("my-client", "my-secret", token_url())
        .into_config();
    let (authorizer, spawn) = ClientCredentialAuthorizer::from_initial_exchange(
        config,
        grant("two\nlines", Some(3_600_000)),
        0,
    )
    .unwrap();
    assert!(spawn);
    assert!(matches!(
        authorizer.authorization_header(),
        Err(Error::InvalidHeaderValue)
    ));
}

#[test]
fn test_transport_failure_is_reported_to_readers() {
    // A refresh that failed at the transport level is reported with its
    // cause, like any other failure.
    let config = ClientCredentialAuthorizerBuilder::new("my-client", "my-secret", token_url())
        .into_config();
    let (mut authorizer, _) =
        ClientCredentialAuthorizer::from_initial_exchange(config, grant("abc", Some(1_000)), 0)
            .unwrap();
    authorizer.apply_refresh_outcome(
        Err(Error::ReqwestFailed("connection reset".to_string())),
        1_000,
    );
    assert!(matches!(
        authorizer.authorization_header(),
        Err(Error::ReqwestFailed(m)) if m == "connection reset"
    ));
}

#[test]
fn test_config_retry_policy() {
    let config = ClientCredentialAuthorizerBuilder::new("my-client", "my-secret", token_url())
        .set_max_retries(7)
        .set_retry_interval(42)
        .into_config();
    let policy = config.retry_policy();
    assert_eq!(policy.max_retries, 7);
    assert_eq!(policy.retry_interval_ms, 42);
}
