use middle::{Error, RefreshAction, Token, TokenCache};
use middle::scheduler::{next_action, should_spawn_refresh};

fn token(secret: &str, now_ms: u64, lifetime_ms: Option<u64>) -> Token {
    Token::try_from_parts(secret, now_ms, lifetime_ms).unwrap()
}

#[test]
fn test_refresh_scheduled_tolerance_before_expiry() {
    // Issued at 0 with a one-hour lifetime and a 30 s tolerance: the loop
    // sleeps until 3570 s, so the refresh call occurs at expiry minus the
    // tolerance and before the expiry itself.
    let t = token("abc", 0, Some(3_600_000));
    let a = next_action(&Ok(t), 0, 30_000);
    assert_eq!(a, RefreshAction::Sleep(3_570_000));
}

#[test]
fn test_no_expiry_stops_the_loop() {
    // A token without expiry: no background refresh is started, and a loop
    // looking at such a snapshot stops for good.
    assert!(!should_spawn_refresh(true, None));
    let t = token("abc", 0, None);
    let a = next_action(&Ok(t), 12_345, 30_000);
    assert_eq!(a, RefreshAction::Stop);
}

#[test]
fn test_spawn_decision() {
    assert!(should_spawn_refresh(true, Some(3_600_000)));
    assert!(!should_spawn_refresh(false, Some(3_600_000)));
    assert!(!should_spawn_refresh(false, None));
}

#[test]
fn test_failed_state_retries_at_tolerance_cadence() {
    let a = next_action(
        &Err(Error::OAuth2RequestFailed("boom".to_string())),
        1_000_000,
        30_000,
    );
    assert_eq!(a, RefreshAction::Sleep(30_000));
}

#[test]
fn test_short_remaining_still_waits_the_tolerance() {
    // Less than the tolerance remains: the loop refreshes soon, but never
    // with a shorter sleep than the tolerance itself.
    let t = token("abc", 0, Some(1_000));
    let a = next_action(&Ok(t), 990, 30_000);
    assert_eq!(a, RefreshAction::Sleep(30_000));
}

#[test]
fn test_expired_token_waits_the_tolerance() {
    let t = token("abc", 0, Some(1_000));
    let a = next_action(&Ok(t), 2_000, 30_000);
    assert_eq!(a, RefreshAction::Sleep(30_000));
}

#[test]
fn test_remaining_exactly_tolerance_sleeps_zero() {
    let t = token("abc", 0, Some(30_000));
    let a = next_action(&Ok(t), 0, 30_000);
    assert_eq!(a, RefreshAction::Sleep(0));
}

#[test]
fn test_cache_read_reflects_latest_replacement() {
    let mut cache = TokenCache::new(Ok(token("abc", 0, Some(1_000))));
    assert_eq!(cache.header_value().unwrap(), "Bearer abc");

    cache.replace(Err(Error::OAuth2RequestFailed("down".to_string())));
    assert!(matches!(
        cache.header_value(),
        Err(Error::OAuth2RequestFailed(m)) if m == "down"
    ));

    cache.replace(Ok(token("def", 10, Some(1_000))));
    assert_eq!(cache.header_value().unwrap(), "Bearer def");
}
