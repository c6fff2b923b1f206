//! The shapes of what the Monzo API is sent and answers.

use vstd::prelude::*;

verus! {

/// The reply to a balance request. Amounts are in minor units (pence).
pub struct GetBalance {
    /// The balance; an overdraft is negative.
    pub balance: i64,
    /// The balance including pots.
    pub total_balance: i64,
    /// The balance including flexible savings.
    pub balance_including_flexible_savings: i64,
    /// The account's currency.
    pub currency: String,
    /// What was spent today.
    pub spend_today: u64,
    /// The local currency.
    pub local_currency: String,
    /// The local exchange rate.
    pub local_exchange_rate: u64,
    /// Spending in other currencies.
    pub local_spend: Vec<LocalSpend>,
}

/// Spending today in one currency.
pub struct LocalSpend {
    /// What was spent today.
    pub spend_today: u64,
    /// The currency.
    pub currency: String,
}

/// The form that asks for fresh tokens with a refresh token.
pub struct RefreshBody {
    /// Always `refresh_token`.
    pub grant_type: String,
    /// The OAuth client's identifier.
    pub client_id: String,
    /// The OAuth client's secret.
    pub client_secret: String,
    /// The refresh token to spend.
    pub refresh_token: String,
}

impl RefreshBody {
    /// A refresh request for the given client and refresh token.
    pub fn new(client_id: String, client_secret: String, refresh_token: String) -> (body: RefreshBody)
        ensures
            body.grant_type@ == "refresh_token"@,
            body.client_id == client_id,
            body.client_secret == client_secret,
            body.refresh_token == refresh_token,
    {
        RefreshBody { grant_type: "refresh_token".to_owned(), client_id, client_secret, refresh_token }
    }
}

/// The tokens that the OAuth endpoint hands out.
pub struct TokenResponse {
    /// The access token.
    pub access_token: String,
    /// The client the tokens were issued to.
    pub client_id: String,
    /// Seconds until the access token expires.
    pub expires_in: usize,
    /// The refresh token.
    pub refresh_token: String,
    /// The kind of token.
    pub token_type: String,
    /// The user the tokens belong to.
    pub user_id: String,
}

/// The form that exchanges an authorization code for tokens.
pub struct ExchangeBody {
    /// Always `authorization_code`.
    pub grant_type: String,
    /// The OAuth client's identifier.
    pub client_id: String,
    /// The OAuth client's secret.
    pub client_secret: String,
    /// The redirect URI the code was issued for.
    pub redirect_uri: String,
    /// The authorization code.
    pub code: String,
}

impl ExchangeBody {
    /// An exchange request for the given client, redirect URI and code.
    pub fn new(client_id: String, client_secret: String, redirect_uri: String, code: String) -> (body:
        ExchangeBody)
        ensures
            body.grant_type@ == "authorization_code"@,
            body.client_id == client_id,
            body.client_secret == client_secret,
            body.redirect_uri == redirect_uri,
            body.code == code,
    {
        ExchangeBody {
            grant_type: "authorization_code".to_owned(),
            client_id,
            client_secret,
            redirect_uri,
            code,
        }
    }
}

} // verus!
