use middle::{intercept_authorization, require_ascii, Authorizer, BearerTokenAuthorizer, Error};

#[test]
fn test_tonic_access_token_added() {
    let interceptor = BearerTokenAuthorizer::new("my-token").unwrap();

    // The intercepted call carries no authorization header yet.
    let attached = intercept_authorization(&interceptor, false).unwrap();
    assert!(attached.is_some());
    assert_eq!(
        interceptor.authorization_header().unwrap(),
        "Bearer my-token".to_string()
    );
    assert_eq!(attached.unwrap(), "Bearer my-token");
}

#[test]
fn test_tonic_access_token_not_added_if_authorization_present() {
    let interceptor = BearerTokenAuthorizer::new("my-token").unwrap();

    // The intercepted call already carries `Bearer existing-token`: nothing
    // is attached and the existing value stays as it is.
    let existing = "Bearer existing-token";
    let attached = intercept_authorization(&interceptor, true).unwrap();
    assert!(attached.is_none());
    assert_eq!(existing, "Bearer existing-token");
}

#[test]
fn test_bearer_token_rejects_non_ascii() {
    let r = BearerTokenAuthorizer::new("tok\u{e9}n");
    assert!(matches!(r, Err(Error::InvalidHeaderValue)));
}

#[test]
fn test_bearer_token_rejects_control_characters() {
    let r = BearerTokenAuthorizer::new("evil\r\ntoken");
    assert!(matches!(r, Err(Error::InvalidHeaderValue)));
}

#[test]
fn test_bearer_token_allows_tab() {
    let a = BearerTokenAuthorizer::new("a\tb").unwrap();
    assert_eq!(a.authorization_header().unwrap(), "Bearer a\tb");
}

#[test]
fn test_require_ascii_accepts_ascii() {
    assert!(require_ascii("plain ascii, even\ncontrol").is_ok());
}

#[test]
fn test_require_ascii_rejects_non_ascii() {
    assert!(matches!(
        require_ascii("h\u{e9}llo"),
        Err(Error::InvalidHeaderValue)
    ));
}

#[test]
fn test_failed_authorizer_fails_interception() {
    // A source with no usable header must fail the call rather than let it
    // go out without credentials.
    let config = middle::ClientCredentialAuthorizerBuilder::new(
        "my-client",
        "my-secret",
        url::Url::parse("https://identity.example.com/oauth2/token").unwrap(),
    )
    .into_config();
    let grant = middle::TokenGrant {
        secret: "abc".to_string(),
        lifetime_ms: Some(3_600_000),
    };
    let (mut authorizer, _) =
        middle::ClientCredentialAuthorizer::from_initial_exchange(config, Ok(grant), 0).unwrap();
    authorizer.apply_refresh_outcome(Err(Error::OAuth2RequestFailed("boom".to_string())), 10);

    let r = intercept_authorization(&authorizer, false);
    assert!(matches!(r, Err(Error::OAuth2RequestFailed(m)) if m == "boom"));

    // With a header already present the failed source does not matter.
    let r = intercept_authorization(&authorizer, true).unwrap();
    assert!(r.is_none());
}
