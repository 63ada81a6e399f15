//! The token cache: a single-slot store holding either the current token or
//! the last fetch error.
//!
//! The slot is mutated only by `replace`, which overwrites it whole; a read
//! therefore always reflects the most recent completed replacement, never a
//! mix of two, and a recorded failure is reported to every reader until a
//! later successful refresh overwrites it.

use vstd::prelude::*;
use vstd::string::*;

use crate::error::{Error, ErrorSpec};
use crate::token::{Token, TokenView};

verus! {

/// Spec-level image of a cache slot: the current token, or the last fetch
/// error.
pub open spec fn state_view(s: Result<Token, Error>) -> Result<TokenView, ErrorSpec> {
    match s {
        Ok(t) => Ok(t@),
        Err(e) => Err(e@),
    }
}

/// What a header read returns for a given cache state: the token's header
/// value, or the recorded failure.
pub open spec fn header_of(state: Result<TokenView, ErrorSpec>) -> Result<Seq<char>, ErrorSpec> {
    match state {
        Ok(t) => Ok(t.header),
        Err(e) => Err(e),
    }
}

/// An executable header result `r` agrees with a spec-level one `s`.
pub open spec fn reflects_header(r: Result<String, Error>, s: Result<Seq<char>, ErrorSpec>) -> bool {
    match r {
        Ok(h) => s matches Ok(hs) && h@ == hs,
        Err(e) => s matches Err(es) && e@ == es,
    }
}

/// The single-slot store. It always holds exactly one state: there is no
/// empty slot, since construction of the surrounding component fails when the
/// first fetch does.
pub struct TokenCache {
    state: Result<Token, Error>,
}

impl View for TokenCache {
    type V = Result<TokenView, ErrorSpec>;

    closed spec fn view(&self) -> Result<TokenView, ErrorSpec> {
        state_view(self.state)
    }
}

impl TokenCache {
    /// Creates the slot holding the outcome of the initial fetch.
    pub fn new(initial: Result<Token, Error>) -> (c: TokenCache)
        ensures
            c@ == state_view(initial),
    {
        TokenCache { state: initial }
    }

    /// A snapshot of the current state. Never blocks on anything: it only
    /// copies the slot.
    pub fn read(&self) -> (r: Result<Token, Error>)
        ensures
            state_view(r) == self@,
    {
        match &self.state {
            Ok(t) => Ok(t.clone()),
            Err(e) => Err(e.clone()),
        }
    }

    /// Overwrites the slot whole. A failure is recorded as faithfully as a
    /// success: the previous (possibly expired) token is never retained past
    /// a failed refresh.
    pub fn replace(&mut self, new_state: Result<Token, Error>)
        ensures
            final (self)@ == state_view(new_state),
    {
        self.state = new_state;
    }

    /// Borrows the current state without copying it.
    pub fn state(&self) -> (r: &Result<Token, Error>)
        ensures
            state_view(*r) == self@,
    {
        &self.state
    }

    /// The current header value, or the recorded failure. Non-blocking.
    pub fn header_value(&self) -> (r: Result<String, Error>)
        ensures
            reflects_header(r, header_of(self@)),
    {
        match &self.state {
            Ok(t) => Ok(String::from_str(t.header())),
            Err(e) => Err(e.clone()),
        }
    }
}

/// The cache state after a sequence of replacements: the argument of the last
/// one, or the initial state if none happened.
pub open spec fn state_after(
    init: Result<TokenView, ErrorSpec>,
    writes: Seq<Result<TokenView, ErrorSpec>>,
) -> Result<TokenView, ErrorSpec> {
    if writes.len() == 0 {
        init
    } else {
        writes.last()
    }
}

/// After a failed refresh, and as long as every later refresh also fails,
/// a header read reports a failure — never the token that was cached before —
/// and the failure reported is the most recent one.
pub proof fn lemma_unavailable_until_success(
    init: Result<TokenView, ErrorSpec>,
    writes: Seq<Result<TokenView, ErrorSpec>>,
)
    requires
        writes.len() > 0,
        forall|i: int| 0 <= i < writes.len() ==> (#[trigger] writes[i]) is Err,
    ensures
        header_of(state_after(init, writes)) is Err,
        writes.last() matches Err(e) && header_of(state_after(init, writes)) == Err::<
            Seq<char>,
            ErrorSpec,
        >(e),
{
}

/// The first successful refresh ends the outage: a header read after it
/// returns exactly the newly issued token's header value.
pub proof fn lemma_success_restores_service(
    init: Result<TokenView, ErrorSpec>,
    writes: Seq<Result<TokenView, ErrorSpec>>,
    t: TokenView,
)
    requires
        writes.len() > 0,
        writes.last() == Ok::<TokenView, ErrorSpec>(t),
    ensures
        header_of(state_after(init, writes)) == Ok::<Seq<char>, ErrorSpec>(t.header),
{
}

} // verus!
