//! The OAuth tokens that give access to the account, and their expiry.

use vstd::prelude::*;

use crate::clock::{clock_reading, now_nanos, NANOS_PER_SECOND};
use crate::model::TokenResponse;

verus! {

/// The largest number of seconds a time span may hold: spans are counted in
/// whole milliseconds in an `i64`.
pub const MAX_SPAN_SECONDS: i64 = 9_223_372_036_854_775;

/// The tokens in use. Times are nanoseconds since the Unix epoch.
pub struct Tokens {
    /// The token sent with every API request.
    pub access_token: String,
    /// When the access token stops working.
    pub expires_at: i128,
    /// The token that buys a fresh pair.
    pub refresh_token: String,
}

/// The lifetime of a token reply in seconds: `expires_in` taken as an `i64`,
/// so that a value above `i64::MAX` wraps around as `as` does.
pub open spec fn lifetime_seconds(expires_in: usize) -> i64 {
    expires_in as i64
}

/// A lifetime that a time span can hold (chrono's `TimeDelta::seconds`
/// panics on any other).
pub open spec fn lifetime_in_range(expires_in: usize) -> bool {
    -MAX_SPAN_SECONDS <= lifetime_seconds(expires_in) <= MAX_SPAN_SECONDS
}

/// The lifetime of a token reply in nanoseconds.
pub open spec fn lifetime_nanos(expires_in: usize) -> int {
    lifetime_seconds(expires_in) * NANOS_PER_SECOND
}

/// The expiry of tokens issued at `now` (nanoseconds) with the given lifetime.
pub open spec fn expiry_time(expires_in: usize, now: int) -> int {
    now + lifetime_nanos(expires_in)
}

/// The lifetime is a valid span and the expiry it gives at `now` is a time
/// the library can hold.
pub open spec fn expiry_fits(expires_in: usize, now: int) -> bool {
    &&& lifetime_in_range(expires_in)
    &&& i128::MIN <= expiry_time(expires_in, now) <= i128::MAX
}

/// The tokens of a reply received at `now`.
pub open spec fn issued_tokens(response: TokenResponse, now: int) -> Tokens {
    Tokens {
        access_token: response.access_token,
        expires_at: expiry_time(response.expires_in, now) as i128,
        refresh_token: response.refresh_token,
    }
}

/// `before` with its fields replaced by those of a reply received at `now`.
pub open spec fn updated_tokens(before: Tokens, response: TokenResponse, now: int) -> Tokens {
    Tokens {
        access_token: response.access_token,
        expires_at: expiry_time(response.expires_in, now) as i128,
        refresh_token: response.refresh_token,
        ..before
    }
}

/// At one clock reading, updating tokens in place leaves exactly the tokens
/// that building them from the same reply gives: the reply's tokens, which
/// expire the reply's lifetime after the reading, with nothing left of the
/// tokens held before.
pub proof fn law_update_equals_build(before: Tokens, response: TokenResponse, now: int)
    requires
        expiry_fits(response.expires_in, now),
    ensures
        updated_tokens(before, response, now) == issued_tokens(response, now),
        issued_tokens(response, now).access_token == response.access_token,
        issued_tokens(response, now).refresh_token == response.refresh_token,
        issued_tokens(response, now).expires_at == now + lifetime_nanos(response.expires_in),
{
}

/// Tokens built from a reply at clock reading `now` carry the reply's access
/// and refresh tokens, and expire exactly `expires_in` seconds after `now`.
pub proof fn law_tokens_expire_lifetime_after_reading(response: TokenResponse, now: int)
    requires
        expiry_fits(response.expires_in, now),
    ensures
        issued_tokens(response, now).expires_at == now + (response.expires_in as i64) * 1_000_000_000,
        issued_tokens(response, now).access_token == response.access_token,
        issued_tokens(response, now).refresh_token == response.refresh_token,
{
}

/// A valid lifetime fits at every reading of the wall clock.
pub proof fn lemma_expiry_fits_any_reading(expires_in: usize, now: int)
    requires
        lifetime_in_range(expires_in),
        clock_reading(now),
    ensures
        expiry_fits(expires_in, now),
{
}

/// Whether the lifetime of a token reply is a valid span.
pub fn lifetime_is_valid(expires_in: usize) -> (b: bool)
    ensures
        b == lifetime_in_range(expires_in),
{
    let secs = expires_in as i64;
    -MAX_SPAN_SECONDS <= secs && secs <= MAX_SPAN_SECONDS
}

impl Tokens {
    /// The tokens of a reply received at `now`.
    pub fn from_token_response_at(token_response: TokenResponse, now: i128) -> (tokens: Tokens)
        requires
            expiry_fits(token_response.expires_in, now as int),
        ensures
            tokens == issued_tokens(token_response, now as int),
            tokens.expires_at == now + (token_response.expires_in as i64) * 1_000_000_000,
            tokens.access_token == token_response.access_token,
            tokens.refresh_token == token_response.refresh_token,
    {
        let expires_at = now + (token_response.expires_in as i64 as i128) * NANOS_PER_SECOND;
        Tokens {
            access_token: token_response.access_token,
            expires_at,
            refresh_token: token_response.refresh_token,
        }
    }

    /// The tokens of a reply received now, by the wall clock.
    pub fn from_token_response(token_response: TokenResponse) -> (tokens: Tokens)
        requires
            lifetime_in_range(token_response.expires_in),
        ensures
            exists|now: int| clock_reading(now) && tokens == #[trigger] issued_tokens(token_response, now),
            clock_reading(tokens.expires_at - lifetime_nanos(token_response.expires_in)),
            tokens == issued_tokens(
                token_response,
                tokens.expires_at - lifetime_nanos(token_response.expires_in),
            ),
    {
        let now = now_nanos();
        proof {
            lemma_expiry_fits_any_reading(token_response.expires_in, now as int);
        }
        Tokens::from_token_response_at(token_response, now)
    }

    /// Replaces the tokens with those of a reply received at `now`.
    pub fn update_from_token_response_at(&mut self, token_response: TokenResponse, now: i128)
        requires
            expiry_fits(token_response.expires_in, now as int),
        ensures
            *final(self) == updated_tokens(*old(self), token_response, now as int),
            *final(self) == issued_tokens(token_response, now as int),
            final(self).expires_at == now + (token_response.expires_in as i64) * 1_000_000_000,
            final(self).access_token == token_response.access_token,
            final(self).refresh_token == token_response.refresh_token,
    {
        let expires_at = now + (token_response.expires_in as i64 as i128) * NANOS_PER_SECOND;
        self.access_token = token_response.access_token;
        self.refresh_token = token_response.refresh_token;
        self.expires_at = expires_at;
    }

    /// Replaces the tokens with those of a reply received now, by the wall
    /// clock.
    pub fn update_from_token_response(&mut self, token_response: TokenResponse)
        requires
            lifetime_in_range(token_response.expires_in),
        ensures
            exists|now: int|
                clock_reading(now) && *final(self) == #[trigger] updated_tokens(
                    *old(self),
                    token_response,
                    now,
                ),
            clock_reading(final(self).expires_at - lifetime_nanos(token_response.expires_in)),
            *final(self) == updated_tokens(
                *old(self),
                token_response,
                final(self).expires_at - lifetime_nanos(token_response.expires_in),
            ),
    {
        let now = now_nanos();
        proof {
            lemma_expiry_fits_any_reading(token_response.expires_in, now as int);
        }
        self.update_from_token_response_at(token_response, now);
    }
}

} // verus!
