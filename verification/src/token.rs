//! Tokens: an opaque credential formatted as a bearer header value, plus an
//! optional absolute expiry.

use vstd::prelude::*;
use vstd::string::*;

use crate::error::{Error, ErrorSpec};

verus! {

/// A character that may appear in an authorization header value: the tab or
/// printable ASCII (space through tilde). Control characters, DEL and
/// anything beyond ASCII are excluded.
pub open spec fn valid_header_char(c: char) -> bool {
    c == '\t' || (' ' <= c && c <= '~')
}

/// A string is a usable header value when every character of it is.
pub open spec fn valid_header_value(s: Seq<char>) -> bool {
    forall|i: int| 0 <= i < s.len() ==> valid_header_char(#[trigger] s[i])
}

/// The bearer scheme: a secret is sent as `Bearer <secret>`.
pub open spec fn bearer_header(secret: Seq<char>) -> Seq<char> {
    "Bearer "@ + secret
}

/// The bearer prefix only holds printable ASCII, so prefixing preserves and
/// reflects validity.
pub proof fn lemma_bearer_header_valid(secret: Seq<char>)
    ensures
        valid_header_value(bearer_header(secret)) <==> valid_header_value(secret),
{
    reveal_strlit("Bearer ");
    let p = "Bearer "@;
    assert(p.len() == 7);
    assert forall|i: int| 0 <= i < p.len() implies valid_header_char(#[trigger] p[i]) by {
        assert(p[0] == 'B');
        assert(p[1] == 'e');
        assert(p[2] == 'a');
        assert(p[3] == 'r');
        assert(p[4] == 'e');
        assert(p[5] == 'r');
        assert(p[6] == ' ');
    }
    if valid_header_value(bearer_header(secret)) {
        assert forall|i: int| 0 <= i < secret.len() implies valid_header_char(
            #[trigger] secret[i],
        ) by {
            assert(bearer_header(secret)[i + 7] == secret[i]);
        }
    }
    if valid_header_value(secret) {
        assert forall|i: int| 0 <= i < bearer_header(secret).len() implies valid_header_char(
            #[trigger] bearer_header(secret)[i],
        ) by {
            if i < 7 {
                assert(bearer_header(secret)[i] == p[i]);
            } else {
                assert(bearer_header(secret)[i] == secret[i - 7]);
            }
        }
    }
}

/// Decides [`valid_header_value`] for a string.
pub fn check_header_value(s: &str) -> (r: bool)
    ensures
        r == valid_header_value(s@),
{
    let len = s.unicode_len();
    let mut i: usize = 0;
    while i < len
        invariant
            0 <= i <= len,
            len == s@.len(),
            forall|j: int| 0 <= j < i ==> valid_header_char(#[trigger] s@[j]),
        decreases len - i,
    {
        let c = s.get_char(i);
        if !(c == '\t' || (' ' <= c && c <= '~')) {
            return false;
        }
        i += 1;
    }
    true
}

/// Formats a secret with the bearer scheme.
pub fn bearer_value(secret: &str) -> (r: String)
    ensures
        r@ == bearer_header(secret@),
{
    let mut header = String::from_str("Bearer ");
    header.append(secret);
    header
}

/// Spec-level image of a [`Token`].
pub struct TokenView {
    /// The full header value, `Bearer <secret>`.
    pub header: Seq<char>,
    /// Absolute expiry in milliseconds, `None` for a token that never
    /// expires.
    pub expiry_ms: Option<u64>,
}

/// A token is well formed when its header value is usable in a header.
pub open spec fn token_wf(t: TokenView) -> bool {
    valid_header_value(t.header)
}

/// An issued credential: the ready-made authorization header value and an
/// optional absolute expiry. Immutable once constructed; a refresh produces a
/// new token rather than changing an old one.
pub struct Token {
    header: String,
    expiry_ms: Option<u64>,
}

impl View for Token {
    type V = TokenView;

    closed spec fn view(&self) -> TokenView {
        TokenView { header: self.header@, expiry_ms: self.expiry_ms }
    }
}

impl Clone for Token {
    fn clone(&self) -> (r: Self)
        ensures
            r@ == self@,
    {
        Token { header: self.header.clone(), expiry_ms: self.expiry_ms }
    }
}

/// The absolute expiry of a token granted at `now_ms` for `lifetime_ms`
/// milliseconds; the addition saturates at the largest representable instant.
pub open spec fn spec_expiry(now_ms: u64, lifetime_ms: Option<u64>) -> Option<u64> {
    match lifetime_ms {
        None => None,
        Some(d) => if now_ms + d <= u64::MAX {
            Some((now_ms + d) as u64)
        } else {
            Some(u64::MAX)
        },
    }
}

/// Computes [`spec_expiry`].
pub fn expiry_from_lifetime(now_ms: u64, lifetime_ms: Option<u64>) -> (r: Option<u64>)
    ensures
        r == spec_expiry(now_ms, lifetime_ms),
{
    match lifetime_ms {
        None => None,
        Some(d) => {
            if now_ms <= u64::MAX - d {
                Some(now_ms + d)
            } else {
                Some(u64::MAX)
            }
        },
    }
}

impl Token {
    /// Turns an issued secret into a token, checking at this point — right
    /// after a successful exchange — that the secret can be represented as a
    /// header value.
    pub fn try_from_parts(secret: &str, now_ms: u64, lifetime_ms: Option<u64>) -> (r: Result<
        Token,
        Error,
    >)
        ensures
            valid_header_value(secret@) ==> (r matches Ok(t) && t@ == (TokenView {
                header: bearer_header(secret@),
                expiry_ms: spec_expiry(now_ms, lifetime_ms),
            }) && token_wf(t@)),
            !valid_header_value(secret@) ==> (r matches Err(e) && e@
                == ErrorSpec::InvalidHeaderValue),
    {
        if !check_header_value(secret) {
            return Err(Error::InvalidHeaderValue);
        }
        let header = bearer_value(secret);
        proof {
            lemma_bearer_header_valid(secret@);
        }
        Ok(Token { header, expiry_ms: expiry_from_lifetime(now_ms, lifetime_ms) })
    }

    /// The header value this token is sent as.
    pub fn header(&self) -> (r: &str)
        ensures
            r@ == self@.header,
    {
        self.header.as_str()
    }

    /// The absolute expiry in milliseconds, if the token expires.
    pub fn expiry_ms(&self) -> (r: Option<u64>)
        ensures
            r == self@.expiry_ms,
    {
        self.expiry_ms
    }
}

} // verus!
