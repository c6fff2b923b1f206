//! Talking to the Monzo API: the requests the exporter sends, and the
//! decisions of the loop that keeps its tokens fresh.

use vstd::prelude::*;

use crate::clock::{clock_reading, now_nanos, MAX_CLOCK_NANOS};
use crate::config::Config;
use crate::error::Error;
use crate::model::{ExchangeBody, RefreshBody};
use crate::model::TokenResponse;
use crate::tokens::{expiry_fits, issued_tokens, lifetime_nanos, lifetime_seconds, updated_tokens, Tokens};

verus! {

/// The root of the Monzo API.
pub const BASE_URL: &'static str = "https://api.monzo.com";

/// How long before their expiry the tokens are refreshed: 30 minutes, in
/// nanoseconds.
pub const REFRESH_MARGIN_NANOS: i128 = 1_800_000_000_000;

/// The root of the Monzo API.
pub open spec fn base_url() -> Seq<char> {
    "https://api.monzo.com"@
}

/// The OAuth token endpoint.
pub open spec fn token_url() -> Seq<char> {
    base_url() + "/oauth2/token"@
}

/// The balance endpoint for an account.
pub open spec fn balance_url(account_id: Seq<char>) -> Seq<char> {
    base_url() + "/balance?account_id="@ + account_id
}

/// The authorization header that carries an access token.
pub open spec fn bearer(access_token: Seq<char>) -> Seq<char> {
    "Bearer "@ + access_token
}

fn base() -> (s: String)
    ensures
        s@ == base_url(),
{
    "https://api.monzo.com".to_owned()
}

/// The OAuth token endpoint.
pub fn token_endpoint() -> (url: String)
    ensures
        url@ == token_url(),
{
    let mut url = base();
    url.append("/oauth2/token");
    url
}

/// A request for the account's balance.
pub struct BalanceRequest {
    /// The URL to GET.
    pub endpoint: String,
    /// The value of the `Authorization` header.
    pub authorization: String,
}

/// The balance request for the configured account, made with the current
/// access token; `NotLoggedIn` when there are no tokens.
pub fn balance_request(config: &Config, tokens: &Option<Tokens>) -> (r: Result<BalanceRequest, Error>)
    ensures
        tokens is None <==> r is Err,
        r matches Err(e) ==> e is NotLoggedIn,
        r matches Ok(req) ==> {
            &&& req.endpoint@ == balance_url(config.account_id@)
            &&& req.authorization@ == bearer(tokens->0.access_token@)
        },
{
    match tokens {
        Some(t) => {
            let mut endpoint = base();
            endpoint.append("/balance?account_id=");
            endpoint.append(config.account_id.as_str());
            let mut authorization = "Bearer ".to_owned();
            authorization.append(t.access_token.as_str());
            Ok(BalanceRequest { endpoint, authorization })
        },
        None => Err(Error::NotLoggedIn),
    }
}

/// The callback URL that codes are issued for: `{redirect_uri}/callback`.
pub open spec fn callback_url(config: Config) -> Seq<char> {
    config.redirect_uri@ + "/callback"@
}

/// The request that exchanges an authorization code for tokens: the token
/// endpoint, and the form to post there.
pub fn exchange_request(config: &Config, code: String) -> (r: (String, ExchangeBody))
    ensures
        r.0@ == token_url(),
        r.1.grant_type@ == "authorization_code"@,
        r.1.client_id == config.client_id,
        r.1.client_secret == config.client_secret,
        r.1.redirect_uri@ == callback_url(*config),
        r.1.code == code,
{
    let mut redirect_uri = config.redirect_uri.clone();
    redirect_uri.append("/callback");
    let body = ExchangeBody::new(config.client_id.clone(), config.client_secret.clone(), redirect_uri, code);
    (token_endpoint(), body)
}

/// The request that trades the refresh token for fresh tokens: the token
/// endpoint, and the form to post there.
pub fn refresh_request(config: &Config, tokens: &Tokens) -> (r: (String, RefreshBody))
    ensures
        r.0@ == token_url(),
        r.1.grant_type@ == "refresh_token"@,
        r.1.client_id == config.client_id,
        r.1.client_secret == config.client_secret,
        r.1.refresh_token == tokens.refresh_token,
{
    let body = RefreshBody::new(config.client_id.clone(), config.client_secret.clone(), tokens.refresh_token.clone());
    (token_endpoint(), body)
}

/// What the user is told when the tokens have expired.
pub open spec fn expired_text(config: Config) -> Seq<char> {
    "Your tokens have expired: Visit "@ + config.authorize_url() + " to login again"@
}

/// What the user is told when the tokens have expired.
pub fn expired_notice(config: &Config) -> (s: String)
    ensures
        s@ == expired_text(*config),
{
    let mut s = "Your tokens have expired: Visit ".to_owned();
    let url = config.get_authorize_url();
    s.append(url.as_str());
    s.append(" to login again");
    s
}

/// What the user is told at start-up when no tokens could be read.
pub open spec fn login_hint_text(config: Config, e: Error) -> Seq<char> {
    "Error reading tokens from disk ("@ + e.debug_text()
        + ").\nThis just means you haven't logged in yet: Visit "@ + config.authorize_url()
        + " to do so"@
}

/// What the user is told at start-up when no tokens could be read.
pub fn login_hint(config: &Config, e: &Error) -> (s: String)
    ensures
        s@ == login_hint_text(*config, *e),
{
    let mut s = "Error reading tokens from disk (".to_owned();
    let d = e.debug_string();
    s.append(d.as_str());
    s.append(").\nThis just means you haven't logged in yet: Visit ");
    let url = config.get_authorize_url();
    s.append(url.as_str());
    s.append(" to do so");
    s
}

/// How long to wait before refreshing tokens that expire at `expires_at`,
/// at time `now`: until 30 minutes before the expiry, and not at all once
/// that moment has passed.
pub open spec fn refresh_delay(expires_at: int, now: int) -> int {
    let d = expires_at - now - REFRESH_MARGIN_NANOS;
    if d < 0 {
        0
    } else {
        d
    }
}

/// Tokens are refreshed 30 minutes before they expire, or at once when that
/// moment has already come.
pub proof fn law_refresh_before_expiry(expires_at: int, now: int)
    ensures
        refresh_delay(expires_at, now) >= 0,
        refresh_delay(expires_at, now) > 0 ==> now + refresh_delay(expires_at, now)
            + REFRESH_MARGIN_NANOS == expires_at,
        refresh_delay(expires_at, now) == 0 <==> expires_at - now <= REFRESH_MARGIN_NANOS,
{
}

/// Tokens received at `now` with a lifetime that is not negative are not
/// expired at that moment, and, looked at then, are due for a refresh when
/// all but 30 minutes of their lifetime has passed.
pub proof fn law_fresh_tokens_scheduled(response: TokenResponse, now: int)
    requires
        expiry_fits(response.expires_in, now),
        lifetime_seconds(response.expires_in) >= 0,
    ensures
        !is_expired(issued_tokens(response, now).expires_at as int, now),
        refresh_delay(issued_tokens(response, now).expires_at as int, now) == if lifetime_nanos(
            response.expires_in,
        ) > REFRESH_MARGIN_NANOS {
            lifetime_nanos(response.expires_in) - REFRESH_MARGIN_NANOS
        } else {
            0
        },
{
}

/// After a refresh whose reply arrives at clock `now`, the tokens held are
/// the reply's, whatever was held before. A later look at them at `check_at`
/// keeps them as long as `check_at` is not past their expiry, and, with the
/// clock at `later`, schedules the next refresh 30 minutes before that
/// expiry, or at once where that moment has come.
pub proof fn law_refresh_then_schedule(
    before: Tokens,
    response: TokenResponse,
    now: int,
    check_at: int,
    later: int,
)
    requires
        expiry_fits(response.expires_in, now),
    ensures
        updated_tokens(before, response, now).access_token == response.access_token,
        updated_tokens(before, response, now).refresh_token == response.refresh_token,
        updated_tokens(before, response, now).expires_at == now + lifetime_nanos(response.expires_in),
        check_at <= now + lifetime_nanos(response.expires_in) ==> !is_expired(
            updated_tokens(before, response, now).expires_at as int,
            check_at,
        ),
        refresh_delay(updated_tokens(before, response, now).expires_at as int, later) == if now
            + lifetime_nanos(response.expires_in) - later > REFRESH_MARGIN_NANOS {
            now + lifetime_nanos(response.expires_in) - later - REFRESH_MARGIN_NANOS
        } else {
            0
        },
{
}

/// What the exporter stops with when a refresh fails: by then it has deleted
/// the tokens file, so that the next start asks for a new login.
pub open spec fn refresh_failure_text(e: Error) -> Seq<char> {
    "Error while refreshing tokens: "@ + e.debug_text()
}

/// What the exporter stops with when a refresh fails.
pub fn refresh_failure_message(e: &Error) -> (s: String)
    ensures
        s@ == refresh_failure_text(*e),
{
    let mut s = "Error while refreshing tokens: ".to_owned();
    let d = e.debug_string();
    s.append(d.as_str());
    s
}

/// What the token loop does next, after looking at the tokens.
pub enum TokenCheck {
    /// There are no tokens: wait for new ones.
    AwaitTokens,
    /// The tokens had expired and were dropped: tell the user, then look again.
    Expired { notice: String },
    /// Wait for new tokens, but refresh these after `delay_nanos` nanoseconds.
    AwaitTokensOrRefresh { delay_nanos: u128 },
}

/// Tokens that expire at `expires_at` are expired at time `now`.
pub open spec fn is_expired(expires_at: int, now: int) -> bool {
    expires_at < now
}

/// The refresh delay, in nanoseconds, of tokens expiring at `expires_at`, at
/// time `now`.
pub fn refresh_delay_nanos(expires_at: i128, now: i128) -> (delay: u128)
    ensures
        delay == refresh_delay(expires_at as int, now as int),
{
    if expires_at <= now {
        return 0;
    }
    let diff: u128 = if now >= 0 || expires_at < 0 {
        (expires_at - now) as u128
    } else {
        (expires_at as u128) + (((-(now + 1)) as u128) + 1)
    };
    if diff <= REFRESH_MARGIN_NANOS as u128 {
        0
    } else {
        diff - (REFRESH_MARGIN_NANOS as u128)
    }
}

/// The outcome of looking at the tokens `before` with the clock at `now`
/// for the expiry and at `later` for the refresh delay: no tokens means
/// waiting for some; tokens that expired before `now` are dropped and the
/// user is told to log in again; other tokens are kept and refreshed 30
/// minutes before their expiry.
pub open spec fn checked_at(
    before: Option<Tokens>,
    after: Option<Tokens>,
    c: TokenCheck,
    config: Config,
    now: int,
    later: int,
) -> bool {
    match before {
        None => c is AwaitTokens && after == before,
        Some(t) => if t.expires_at < now {
            &&& after is None
            &&& c matches TokenCheck::Expired { notice } && notice@ == expired_text(config)
        } else {
            &&& after == before
            &&& c matches TokenCheck::AwaitTokensOrRefresh { delay_nanos }
            &&& delay_nanos == refresh_delay(t.expires_at as int, later)
        },
    }
}

/// Looks at the tokens at time `now`, and computes a refresh delay at time
/// `later`: no tokens means waiting for some; expired tokens are dropped;
/// other tokens are kept and refreshed 30 minutes before their expiry.
pub fn check_tokens_at(tokens: &mut Option<Tokens>, config: &Config, now: i128, later: i128) -> (c:
    TokenCheck)
    ensures
        match *old(tokens) {
            None => c is AwaitTokens && *final(tokens) == *old(tokens),
            Some(t) => if t.expires_at < now {
                &&& *final(tokens) is None
                &&& c matches TokenCheck::Expired { notice } && notice@ == expired_text(*config)
            } else {
                &&& *final(tokens) == *old(tokens)
                &&& c matches TokenCheck::AwaitTokensOrRefresh { delay_nanos }
                &&& delay_nanos == refresh_delay(t.expires_at as int, later as int)
            },
        },
        checked_at(*old(tokens), *final(tokens), c, *config, now as int, later as int),
{
    match tokens {
        None => TokenCheck::AwaitTokens,
        Some(t) => {
            if t.expires_at < now {
                *tokens = None;
                TokenCheck::Expired { notice: expired_notice(config) }
            } else {
                let delay_nanos = refresh_delay_nanos(t.expires_at, later);
                TokenCheck::AwaitTokensOrRefresh { delay_nanos }
            }
        },
    }
}

/// Looks at the tokens by the wall clock (see `check_tokens_at`), reading it
/// once for the expiry and once more for the refresh delay.
pub fn check_tokens(tokens: &mut Option<Tokens>, config: &Config) -> (c: TokenCheck)
    ensures
        match *old(tokens) {
            None => c is AwaitTokens && *final(tokens) == *old(tokens),
            Some(t) => {
                ||| {
                    &&& *final(tokens) is None
                    &&& c matches TokenCheck::Expired { notice } && notice@ == expired_text(*config)
                    &&& t.expires_at < MAX_CLOCK_NANOS
                }
                ||| {
                    &&& *final(tokens) == *old(tokens)
                    &&& c matches TokenCheck::AwaitTokensOrRefresh { delay_nanos }
                    &&& t.expires_at >= 0
                    &&& delay_nanos <= refresh_delay(t.expires_at as int, 0)
                }
            },
        },
        exists|now: int, later: int|
            clock_reading(now) && clock_reading(later) && #[trigger] checked_at(
                *old(tokens),
                *final(tokens),
                c,
                *config,
                now,
                later,
            ),
{
    let now = now_nanos();
    let later = now_nanos();
    let c = check_tokens_at(tokens, config, now, later);
    assert(checked_at(*old(tokens), *tokens, c, *config, now as int, later as int));
    c
}

/// What the token loop does when the refresh delay has passed.
pub enum RefreshDue {
    /// Post `body` to `endpoint` and take the tokens of the reply.
    Refresh { endpoint: String, body: RefreshBody },
    /// The tokens are gone: tell the user.
    Expired { notice: String },
}

/// When the refresh delay has passed: refresh the tokens if there are any.
pub fn refresh_due(tokens: &Option<Tokens>, config: &Config) -> (r: RefreshDue)
    ensures
        match *tokens {
            Some(t) => r matches RefreshDue::Refresh { endpoint, body } && {
                &&& endpoint@ == token_url()
                &&& body.grant_type@ == "refresh_token"@
                &&& body.client_id == config.client_id
                &&& body.client_secret == config.client_secret
                &&& body.refresh_token == t.refresh_token
            },
            None => r matches RefreshDue::Expired { notice } && notice@ == expired_text(*config),
        },
{
    match tokens {
        Some(t) => {
            let (endpoint, body) = refresh_request(config, t);
            RefreshDue::Refresh { endpoint, body }
        },
        None => RefreshDue::Expired { notice: expired_notice(config) },
    }
}

/// Takes the tokens handed to the loop (`None` once nobody can hand over
/// any more), and returns what the user is told.
pub fn receive_tokens(tokens: &mut Option<Tokens>, received: Option<Tokens>) -> (notice: String)
    ensures
        *final(tokens) == received,
        notice@ == "Received new tokens"@,
{
    *tokens = received;
    "Received new tokens".to_owned()
}

} // verus!
