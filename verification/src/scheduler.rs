//! The refresh scheduler's decisions: when to sleep, for how long, and when
//! to stop.
//!
//! A background loop driven by these decisions proactively replaces the
//! cached token before it expires. Sleeping and performing the exchange are
//! outside work; everything decided here is a function of the current cache
//! snapshot, the current time and the configured tolerance.

use vstd::prelude::*;

use crate::error::ErrorSpec;
use crate::token::{Token, TokenView};
use crate::error::Error;
use crate::cache::state_view;
use crate::fetch::{spec_state_from_outcome, TokenGrantView};

verus! {

/// What the refresh loop does next.
#[derive(Clone, Copy, Debug, PartialEq, Eq)]
pub enum RefreshAction {
    /// Sleep this many milliseconds, then fetch a new token and record the
    /// result — success or failure — in the cache.
    Sleep(u64),
    /// Stop for good: the cached token never expires, so there is nothing to
    /// refresh.
    Stop,
}

/// The sleep computed from a cache snapshot at time `now_ms`:
/// - after a failed refresh, retry every `tolerance_ms` (an unbounded retry
///   cadence, distinct from the fetcher's bounded one);
/// - a token without expiry stops the loop;
/// - a token expiring at `e` is refreshed `tolerance_ms` before `e`; when
///   less than the tolerance remains, the loop still waits the full
///   tolerance rather than hammering the endpoint.
pub open spec fn spec_next_action(
    state: Result<TokenView, ErrorSpec>,
    now_ms: u64,
    tolerance_ms: u64,
) -> RefreshAction {
    match state {
        Err(_) => RefreshAction::Sleep(tolerance_ms),
        Ok(t) => match t.expiry_ms {
            None => RefreshAction::Stop,
            Some(e) => {
                let remaining = if e > now_ms {
                    e - now_ms
                } else {
                    0
                };
                if remaining < tolerance_ms {
                    RefreshAction::Sleep(tolerance_ms)
                } else {
                    RefreshAction::Sleep((remaining - tolerance_ms) as u64)
                }
            },
        },
    }
}

/// Decides the next step of the refresh loop; see [`spec_next_action`].
pub fn next_action(state: &Result<Token, Error>, now_ms: u64, tolerance_ms: u64) -> (a:
    RefreshAction)
    ensures
        a == spec_next_action(state_view(*state), now_ms, tolerance_ms),
{
    match state {
        Err(_) => RefreshAction::Sleep(tolerance_ms),
        Ok(t) => match t.expiry_ms() {
            None => RefreshAction::Stop,
            Some(e) => {
                let remaining = if e > now_ms {
                    e - now_ms
                } else {
                    0
                };
                if remaining < tolerance_ms {
                    RefreshAction::Sleep(tolerance_ms)
                } else {
                    RefreshAction::Sleep(remaining - tolerance_ms)
                }
            },
        },
    }
}

/// Whether a background refresh loop is started at all: only when background
/// refresh is enabled and the initially issued token has a finite lifetime.
pub open spec fn spec_should_spawn(enable_refresh: bool, lifetime_ms: Option<u64>) -> bool {
    enable_refresh && lifetime_ms is Some
}

/// Decides whether to start the background loop; see [`spec_should_spawn`].
pub fn should_spawn_refresh(enable_refresh: bool, lifetime_ms: Option<u64>) -> (r: bool)
    ensures
        r == spec_should_spawn(enable_refresh, lifetime_ms),
{
    enable_refresh && lifetime_ms.is_some()
}

/// An instant advanced by a sleep, saturating at the largest representable
/// instant.
pub open spec fn advance(now_ms: u64, sleep_ms: u64) -> u64 {
    if now_ms + sleep_ms <= u64::MAX {
        (now_ms + sleep_ms) as u64
    } else {
        u64::MAX
    }
}

/// The instants at which a loop driven by [`spec_next_action`] wakes and
/// fetches, when started on `state` at `now_ms` and observed while the
/// endpoint answers its fetches with `outcomes` in order. Each fetch outcome
/// is recorded into the cache at the wake instant and decides the next
/// iteration; the observation window ends with `outcomes`.
pub open spec fn spec_refresh_instants(
    state: Result<TokenView, ErrorSpec>,
    now_ms: u64,
    tolerance_ms: u64,
    outcomes: Seq<Result<TokenGrantView, ErrorSpec>>,
) -> Seq<u64>
    decreases outcomes.len(),
{
    match spec_next_action(state, now_ms, tolerance_ms) {
        RefreshAction::Stop => Seq::empty(),
        RefreshAction::Sleep(sleep_ms) => if outcomes.len() == 0 {
            Seq::empty()
        } else {
            let wake = advance(now_ms, sleep_ms);
            seq![wake] + spec_refresh_instants(
                spec_state_from_outcome(outcomes[0], wake),
                wake,
                tolerance_ms,
                outcomes.subrange(1, outcomes.len() as int),
            )
        },
    }
}

/// A loop whose cache snapshot holds a token without expiry makes no
/// refresh call in any observation window, however long.
pub proof fn lemma_non_expiring_never_refreshes(
    t: TokenView,
    now_ms: u64,
    tolerance_ms: u64,
    outcomes: Seq<Result<TokenGrantView, ErrorSpec>>,
)
    requires
        t.expiry_ms is None,
    ensures
        spec_refresh_instants(Ok(t), now_ms, tolerance_ms, outcomes) == Seq::<u64>::empty(),
{
}

/// Started on a token expiring at `e` with at least the tolerance still to
/// run, the loop's first refresh call occurs exactly at `e - tolerance_ms` —
/// at or after that instant and, for a positive tolerance, before the expiry.
pub proof fn lemma_first_refresh_instant(
    t: TokenView,
    e: u64,
    now_ms: u64,
    tolerance_ms: u64,
    outcomes: Seq<Result<TokenGrantView, ErrorSpec>>,
)
    requires
        t.expiry_ms == Some(e),
        0 < tolerance_ms,
        now_ms + tolerance_ms <= e,
        outcomes.len() > 0,
    ensures
        spec_refresh_instants(Ok(t), now_ms, tolerance_ms, outcomes)[0] == e - tolerance_ms,
        spec_refresh_instants(Ok(t), now_ms, tolerance_ms, outcomes).len() > 0,
{
}

/// A grant without a lifetime never leads to a background refresh: the loop
/// is not started for it, and even a running loop stops as soon as its cache
/// snapshot holds a token without expiry — so no refresh call occurs in any
/// observation window.
pub proof fn lemma_no_lifetime_no_refresh(
    enable_refresh: bool,
    t: TokenView,
    now_ms: u64,
    tolerance_ms: u64,
)
    requires
        t.expiry_ms is None,
    ensures
        !spec_should_spawn(enable_refresh, t.expiry_ms),
        spec_next_action(Ok(t), now_ms, tolerance_ms) == RefreshAction::Stop,
{
}

/// A token with expiry `e`, seen at `now_ms` with at least the tolerance
/// still to run, is refreshed exactly at `e - tolerance_ms`: the loop sleeps
/// until that instant, which — for a positive tolerance — lies before the
/// expiry itself. The refresh call therefore occurs at `e - tolerance_ms`,
/// within `[e - tolerance_ms, e)`.
pub proof fn lemma_refresh_before_expiry(t: TokenView, e: u64, now_ms: u64, tolerance_ms: u64)
    requires
        t.expiry_ms == Some(e),
        0 < tolerance_ms,
        now_ms + tolerance_ms <= e,
    ensures
        spec_next_action(Ok(t), now_ms, tolerance_ms) matches RefreshAction::Sleep(d) && now_ms + d
            == e - tolerance_ms && e - tolerance_ms < e,
{
}

/// After a failed refresh the loop keeps trying at the tolerance cadence: it
/// never stops on a failure, however many failures follow one another.
pub proof fn lemma_failure_keeps_retrying(e: ErrorSpec, now_ms: u64, tolerance_ms: u64)
    ensures
        spec_next_action(Err(e), now_ms, tolerance_ms) == RefreshAction::Sleep(tolerance_ms),
{
}

} // verus!
