//! What the web server answers: the authorize, callback and stats routes.

use vstd::prelude::*;

use crate::collector::{render_text, MetricStore};
use crate::config::Config;
use crate::error::Error;
use crate::model::TokenResponse;
use crate::clock::clock_reading;
use crate::tokens::{issued_tokens, lifetime_in_range, lifetime_nanos, Tokens};

verus! {

/// HTTP 200 OK.
pub const STATUS_OK: u16 = 200;

/// HTTP 307 Temporary Redirect.
pub const STATUS_TEMPORARY_REDIRECT: u16 = 307;

/// HTTP 401 Unauthorized.
pub const STATUS_UNAUTHORIZED: u16 = 401;

/// HTTP 500 Internal Server Error.
pub const STATUS_INTERNAL_SERVER_ERROR: u16 = 500;

/// The query of the authorize route: `?key=...`.
pub struct AuthorizeQuery {
    key: String,
}

impl AuthorizeQuery {
    /// The query with the given key.
    pub fn new(key: String) -> (q: AuthorizeQuery)
        ensures
            q.key_of() == key,
    {
        AuthorizeQuery { key }
    }

    /// The key presented.
    pub closed spec fn key_of(&self) -> String {
        self.key
    }

    /// The key presented.
    pub fn key(&self) -> (k: &String)
        ensures
            *k == self.key_of(),
    {
        &self.key
    }
}

/// The query of the callback route: `?code=...&state=...`.
pub struct CallbackQuery {
    code: String,
    state: String,
}

impl CallbackQuery {
    /// The query with the given code and state.
    pub fn new(code: String, state: String) -> (q: CallbackQuery)
        ensures
            q.code_of() == code,
            q.state_of() == state,
    {
        CallbackQuery { code, state }
    }

    /// The authorization code.
    pub closed spec fn code_of(&self) -> String {
        self.code
    }

    /// The state handed back, which must be the auth key.
    pub closed spec fn state_of(&self) -> String {
        self.state
    }

    /// The authorization code.
    pub fn code(&self) -> (c: &String)
        ensures
            *c == self.code_of(),
    {
        &self.code
    }

    /// The state handed back.
    pub fn state(&self) -> (s: &String)
        ensures
            *s == self.state_of(),
    {
        &self.state
    }
}

/// An error as the routes report it: a JSON object `{"error": ...}`.
pub struct GenericError {
    error: String,
}

impl GenericError {
    /// The message reported.
    pub closed spec fn message(&self) -> Seq<char> {
        self.error@
    }

    /// Reports an error by its debug rendering.
    pub fn new(error: Error) -> (g: GenericError)
        ensures
            g.message() == error.debug_text(),
    {
        GenericError { error: error.debug_string() }
    }

    /// Reports the given message.
    pub fn from_str(error: &str) -> (g: GenericError)
        ensures
            g.message() == error@,
    {
        GenericError { error: error.to_owned() }
    }

    /// The message reported.
    pub fn error(&self) -> (s: &String)
        ensures
            s@ == self.message(),
    {
        &self.error
    }
}

/// A reply of the web server.
pub enum Reply {
    /// A plain-text body.
    Text { status: u16, body: String },
    /// A redirect to `location`.
    Redirect { status: u16, location: String },
    /// A JSON error object.
    Json { status: u16, error: GenericError },
}

/// The Monzo login page for the configured client, which sends the user back
/// to the callback route with the auth key as its state.
pub open spec fn grant_text(config: Config) -> Seq<char> {
    "https://auth.monzo.com/?client_id="@ + config.client_id@ + "&redirect_uri="@
        + config.redirect_uri@ + "/callback&response_type=code&state="@ + config.auth_key@
}

/// The Monzo login page for the configured client.
pub fn grant_uri(config: &Config) -> (uri: String)
    ensures
        uri@ == grant_text(*config),
{
    let mut uri = "https://auth.monzo.com/?client_id=".to_owned();
    uri.append(config.client_id.as_str());
    uri.append("&redirect_uri=");
    uri.append(config.redirect_uri.as_str());
    uri.append("/callback&response_type=code&state=");
    uri.append(config.auth_key.as_str());
    uri
}

/// The authorize route: with the right key, a redirect to the Monzo login
/// page; with any other, 401 and `Invalid auth key`.
pub fn authorize(config: &Config, query: &AuthorizeQuery) -> (r: Reply)
    ensures
        config.auth_key@ == query.key_of()@ ==> (r matches Reply::Redirect { status, location }
            && status == STATUS_TEMPORARY_REDIRECT && location@ == grant_text(*config)),
        config.auth_key@ != query.key_of()@ ==> (r matches Reply::Text { status, body } && status
            == STATUS_UNAUTHORIZED && body@ == "Invalid auth key"@),
{
    if config.auth_key != *query.key() {
        return Reply::Text { status: STATUS_UNAUTHORIZED, body: "Invalid auth key".to_owned() };
    }
    Reply::Redirect { status: STATUS_TEMPORARY_REDIRECT, location: grant_uri(config) }
}

/// What the callback route does next.
pub enum CallbackAction {
    /// Answer with this reply; the callback is over.
    Respond(Reply),
    /// Exchange this authorization code for tokens.
    ExchangeCode(String),
    /// Save these tokens to disk.
    SaveTokens(Tokens),
    /// Hand these tokens to the token loop, then answer `Success!`.
    PublishTokens(Tokens),
}

/// The callback route, first step: with the auth key as its state, exchange
/// the code; with any other state, 401 and the error `Invalid auth key`.
pub fn callback(config: &Config, query: &CallbackQuery) -> (a: CallbackAction)
    ensures
        query.state_of()@ == config.auth_key@ ==> a == CallbackAction::ExchangeCode(query.code_of()),
        query.state_of()@ != config.auth_key@ ==> (a matches CallbackAction::Respond(
            Reply::Json { status, error },
        ) && status == STATUS_UNAUTHORIZED && error.message() == "Invalid auth key"@),
{
    if *query.state() != config.auth_key {
        return CallbackAction::Respond(
            Reply::Json { status: STATUS_UNAUTHORIZED, error: GenericError::from_str("Invalid auth key") },
        );
    }
    CallbackAction::ExchangeCode(query.code().clone())
}

/// The callback route, once the code was exchanged: a failed exchange is
/// answered with 500 and the error; tokens received are saved, stamped by
/// the wall clock.
pub fn callback_exchanged(result: Result<TokenResponse, Error>) -> (a: CallbackAction)
    requires
        result matches Ok(r) ==> lifetime_in_range(r.expires_in),
    ensures
        result matches Err(e) ==> (a matches CallbackAction::Respond(Reply::Json { status, error })
            && status == STATUS_INTERNAL_SERVER_ERROR && error.message() == e.debug_text()),
        result matches Ok(r) ==> (a matches CallbackAction::SaveTokens(t) && {
            let now = t.expires_at - lifetime_nanos(r.expires_in);
            &&& clock_reading(now)
            &&& t == issued_tokens(r, now)
        }),
{
    match result {
        Ok(token_response) => CallbackAction::SaveTokens(Tokens::from_token_response(token_response)),
        Err(e) => CallbackAction::Respond(
            Reply::Json { status: STATUS_INTERNAL_SERVER_ERROR, error: GenericError::new(e) },
        ),
    }
}

/// The callback route, once the tokens were saved: a failed save is answered
/// with 500 and the error; otherwise the tokens are handed on.
pub fn callback_saved(tokens: Tokens, result: Result<(), Error>) -> (a: CallbackAction)
    ensures
        result matches Err(e) ==> (a matches CallbackAction::Respond(Reply::Json { status, error })
            && status == STATUS_INTERNAL_SERVER_ERROR && error.message() == e.debug_text()),
        result is Ok ==> a == CallbackAction::PublishTokens(tokens),
{
    match result {
        Ok(()) => CallbackAction::PublishTokens(tokens),
        Err(e) => CallbackAction::Respond(
            Reply::Json { status: STATUS_INTERNAL_SERVER_ERROR, error: GenericError::new(e) },
        ),
    }
}

/// The callback route's answer once the tokens are in use: 200 and `Success!`.
pub fn callback_success() -> (r: Reply)
    ensures
        r matches Reply::Text { status, body } && status == STATUS_OK && body@ == "Success!"@,
{
    Reply::Text { status: STATUS_OK, body: "Success!".to_owned() }
}

/// The stats route: 200 and every metric in the exposition format.
pub fn stats(metrics: &MetricStore) -> (r: Reply)
    ensures
        r matches Reply::Text { status, body } && status == STATUS_OK && body@ == render_text(
            metrics@,
        ),
{
    Reply::Text { status: STATUS_OK, body: metrics.render() }
}

} // verus!
