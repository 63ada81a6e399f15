//! The token fetcher's retry discipline: one exchange per attempt, a fixed
//! interval between attempts, and at most `max_retries` attempts after the
//! first.
//!
//! Performing an exchange is outside work; the functions here decide, from
//! the number of calls made so far and the latest outcome, whether to accept
//! a grant, retry after the fixed interval, or give up with the underlying
//! cause preserved. The trace functions state what any loop driven by these
//! decisions does for a given sequence of endpoint answers.

use vstd::prelude::*;

use crate::error::{Error, ErrorSpec};
use crate::token::{
    bearer_header, spec_expiry, token_wf, valid_header_value, Token, TokenView,
};
use crate::cache::state_view;

verus! {

/// Spec-level image of a [`TokenGrant`].
pub struct TokenGrantView {
    /// The issued secret, as handed out by the endpoint.
    pub secret: Seq<char>,
    /// The issued lifetime in milliseconds, if the endpoint reported one.
    pub lifetime_ms: Option<u64>,
}

/// What a successful exchange yields: the issued secret and an optional
/// lifetime.
pub struct TokenGrant {
    /// The issued secret, as handed out by the endpoint.
    pub secret: String,
    /// The issued lifetime in milliseconds, if the endpoint reported one.
    pub lifetime_ms: Option<u64>,
}

impl View for TokenGrant {
    type V = TokenGrantView;

    open spec fn view(&self) -> TokenGrantView {
        TokenGrantView { secret: self.secret@, lifetime_ms: self.lifetime_ms }
    }
}

/// Spec-level image of one exchange outcome.
pub open spec fn outcome_view(o: Result<TokenGrant, Error>) -> Result<TokenGrantView, ErrorSpec> {
    match o {
        Ok(g) => Ok(g@),
        Err(e) => Err(e@),
    }
}

/// The bounded-retry policy: how many additional attempts may follow the
/// first, and the fixed interval slept between attempts.
#[derive(Clone, Copy, Debug, PartialEq, Eq)]
pub struct RetryPolicy {
    /// Number of consecutive retries after the first attempt.
    pub max_retries: u32,
    /// Interval between consecutive attempts, in milliseconds.
    pub retry_interval_ms: u64,
}

/// Spec-level image of a [`RetryDecision`].
pub enum RetryDecisionView {
    /// The exchange succeeded: use this grant.
    Accept(TokenGrantView),
    /// The exchange failed but attempts remain: sleep this many milliseconds
    /// and try again.
    RetryAfter(u64),
    /// Attempts are exhausted: fail with the last underlying cause.
    GiveUp(ErrorSpec),
}

/// What the fetcher does after one exchange outcome.
pub enum RetryDecision {
    /// The exchange succeeded: use this grant.
    Accept(TokenGrant),
    /// The exchange failed but attempts remain: sleep this many milliseconds
    /// and try again.
    RetryAfter(u64),
    /// Attempts are exhausted: fail with the last underlying cause.
    GiveUp(Error),
}

impl View for RetryDecision {
    type V = RetryDecisionView;

    open spec fn view(&self) -> RetryDecisionView {
        match self {
            RetryDecision::Accept(g) => RetryDecisionView::Accept(g@),
            RetryDecision::RetryAfter(d) => RetryDecisionView::RetryAfter(*d),
            RetryDecision::GiveUp(e) => RetryDecisionView::GiveUp(e@),
        }
    }
}

/// The decision after the exchange call number `calls_made` (counting from 1)
/// came back with `outcome`. Any failure is treated uniformly: it is retried
/// while attempts remain, whatever its cause.
pub open spec fn spec_retry_decision(
    policy: RetryPolicy,
    calls_made: int,
    outcome: Result<TokenGrantView, ErrorSpec>,
) -> RetryDecisionView {
    match outcome {
        Ok(g) => RetryDecisionView::Accept(g),
        Err(e) => if calls_made > policy.max_retries {
            RetryDecisionView::GiveUp(e)
        } else {
            RetryDecisionView::RetryAfter(policy.retry_interval_ms)
        },
    }
}

/// Decides what to do after one exchange outcome; see
/// [`spec_retry_decision`].
pub fn retry_decision(policy: &RetryPolicy, calls_made: u32, outcome: Result<
    TokenGrant,
    Error,
>) -> (d: RetryDecision)
    requires
        1 <= calls_made,
    ensures
        d@ == spec_retry_decision(*policy, calls_made as int, outcome_view(outcome)),
{
    match outcome {
        Ok(g) => RetryDecision::Accept(g),
        Err(e) => {
            if calls_made > policy.max_retries {
                RetryDecision::GiveUp(e)
            } else {
                RetryDecision::RetryAfter(policy.retry_interval_ms)
            }
        },
    }
}

/// How many exchange calls a loop driven by [`spec_retry_decision`] makes
/// when the endpoint answers with `outcomes` in order, `calls_before` calls
/// having already been made. The loop stops at the first outcome that is
/// accepted or given up on.
pub open spec fn spec_fetch_calls(
    policy: RetryPolicy,
    outcomes: Seq<Result<TokenGrantView, ErrorSpec>>,
    calls_before: int,
) -> int
    decreases outcomes.len(),
{
    if outcomes.len() == 0 {
        0
    } else {
        match spec_retry_decision(policy, calls_before + 1, outcomes[0]) {
            RetryDecisionView::RetryAfter(_) => 1 + spec_fetch_calls(
                policy,
                outcomes.subrange(1, outcomes.len() as int),
                calls_before + 1,
            ),
            _ => 1,
        }
    }
}

/// The outcome such a loop ends with: the first one accepted or given up on.
pub open spec fn spec_fetch_result(
    policy: RetryPolicy,
    outcomes: Seq<Result<TokenGrantView, ErrorSpec>>,
    calls_before: int,
) -> Result<TokenGrantView, ErrorSpec>
    decreases outcomes.len(),
{
    if outcomes.len() == 0 {
        arbitrary()
    } else {
        match spec_retry_decision(policy, calls_before + 1, outcomes[0]) {
            RetryDecisionView::RetryAfter(_) => spec_fetch_result(
                policy,
                outcomes.subrange(1, outcomes.len() as int),
                calls_before + 1,
            ),
            _ => outcomes[0],
        }
    }
}

proof fn lemma_exhaust_aux(
    policy: RetryPolicy,
    outcomes: Seq<Result<TokenGrantView, ErrorSpec>>,
    calls_before: int,
)
    requires
        0 <= calls_before <= policy.max_retries,
        outcomes.len() >= policy.max_retries + 1 - calls_before,
        forall|i: int| 0 <= i < outcomes.len() ==> (#[trigger] outcomes[i]) is Err,
    ensures
        spec_fetch_calls(policy, outcomes, calls_before) == policy.max_retries + 1 - calls_before,
        spec_fetch_result(policy, outcomes, calls_before) == outcomes[
            policy.max_retries - calls_before
        ],
    decreases policy.max_retries + 1 - calls_before,
{
    if calls_before == policy.max_retries {
    } else {
        let rest = outcomes.subrange(1, outcomes.len() as int);
        lemma_exhaust_aux(policy, rest, calls_before + 1);
        assert(rest[policy.max_retries - calls_before - 1] == outcomes[
            policy.max_retries - calls_before
        ]);
    }
}

/// When every exchange fails, the fetcher makes exactly `max_retries + 1`
/// calls — each retried after the fixed interval — and gives up with the last
/// failure. During construction this means construction itself fails and no
/// cache is created; a later construction attempt starts the same discipline
/// afresh.
pub proof fn lemma_fetch_exhausts_retries(
    policy: RetryPolicy,
    outcomes: Seq<Result<TokenGrantView, ErrorSpec>>,
)
    requires
        outcomes.len() >= policy.max_retries + 1,
        forall|i: int| 0 <= i < outcomes.len() ==> (#[trigger] outcomes[i]) is Err,
    ensures
        spec_fetch_calls(policy, outcomes, 0) == policy.max_retries + 1,
        spec_fetch_result(policy, outcomes, 0) == outcomes[policy.max_retries as int],
        spec_fetch_result(policy, outcomes, 0) is Err,
        forall|i: int| 0 <= i < policy.max_retries ==> spec_retry_decision(
            policy,
            i + 1,
            #[trigger] outcomes[i],
        ) == RetryDecisionView::RetryAfter(policy.retry_interval_ms),
{
    lemma_exhaust_aux(policy, outcomes, 0);
}

proof fn lemma_success_aux(
    policy: RetryPolicy,
    outcomes: Seq<Result<TokenGrantView, ErrorSpec>>,
    calls_before: int,
    k: int,
)
    requires
        0 <= calls_before,
        0 <= k,
        calls_before + k <= policy.max_retries,
        k < outcomes.len(),
        forall|i: int| 0 <= i < k ==> (#[trigger] outcomes[i]) is Err,
        outcomes[k] is Ok,
    ensures
        spec_fetch_calls(policy, outcomes, calls_before) == k + 1,
        spec_fetch_result(policy, outcomes, calls_before) == outcomes[k],
    decreases k,
{
    if k == 0 {
    } else {
        let rest = outcomes.subrange(1, outcomes.len() as int);
        lemma_success_aux(policy, rest, calls_before + 1, k - 1);
        assert(rest[k - 1] == outcomes[k]);
    }
}

/// When the first `k` exchanges fail and the next one succeeds, with `k` no
/// larger than `max_retries`, the fetcher makes exactly `k + 1` calls — each
/// failure retried after the fixed interval — and accepts the issued grant.
pub proof fn lemma_fetch_succeeds(
    policy: RetryPolicy,
    outcomes: Seq<Result<TokenGrantView, ErrorSpec>>,
    k: int,
)
    requires
        0 <= k <= policy.max_retries,
        k < outcomes.len(),
        forall|i: int| 0 <= i < k ==> (#[trigger] outcomes[i]) is Err,
        outcomes[k] is Ok,
    ensures
        spec_fetch_calls(policy, outcomes, 0) == k + 1,
        spec_fetch_result(policy, outcomes, 0) == outcomes[k],
        forall|i: int| 0 <= i < k ==> spec_retry_decision(policy, i + 1, #[trigger] outcomes[i])
            == RetryDecisionView::RetryAfter(policy.retry_interval_ms),
{
    lemma_success_aux(policy, outcomes, 0, k);
}

/// The cache state a fetch outcome is recorded as: a failure is recorded as
/// it is; a grant becomes a token, unless its secret cannot be represented as
/// a header value, in which case the encoding failure is recorded even though
/// the exchange itself succeeded.
pub open spec fn spec_state_from_outcome(
    outcome: Result<TokenGrantView, ErrorSpec>,
    now_ms: u64,
) -> Result<TokenView, ErrorSpec> {
    match outcome {
        Err(e) => Err(e),
        Ok(g) => if valid_header_value(g.secret) {
            Ok(
                TokenView {
                    header: bearer_header(g.secret),
                    expiry_ms: spec_expiry(now_ms, g.lifetime_ms),
                },
            )
        } else {
            Err(ErrorSpec::InvalidHeaderValue)
        },
    }
}

/// Every token recorded through [`spec_state_from_outcome`] is well formed:
/// its header value is usable in a header, so turning it into transport
/// metadata cannot fail.
pub proof fn lemma_recorded_token_well_formed(
    outcome: Result<TokenGrantView, ErrorSpec>,
    now_ms: u64,
)
    ensures
        spec_state_from_outcome(outcome, now_ms) matches Ok(t) ==> token_wf(t),
{
    match outcome {
        Ok(g) => {
            if valid_header_value(g.secret) {
                crate::token::lemma_bearer_header_valid(g.secret);
            }
        },
        Err(_) => {},
    }
}

/// Turns one exchange outcome into the cache state it is recorded as; see
/// [`spec_state_from_outcome`].
pub fn state_from_outcome(outcome: Result<TokenGrant, Error>, now_ms: u64) -> (r: Result<
    Token,
    Error,
>)
    ensures
        state_view(r) == spec_state_from_outcome(outcome_view(outcome), now_ms),
{
    match outcome {
        Err(e) => Err(e),
        Ok(g) => Token::try_from_parts(g.secret.as_str(), now_ms, g.lifetime_ms),
    }
}

} // verus!
