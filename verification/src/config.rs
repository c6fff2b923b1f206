//! The exporter's configuration.

use vstd::prelude::*;

verus! {

/// The settings read from `config.toml`.
pub struct Config {
    /// The Monzo account whose balance is exported.
    pub account_id: String,
    /// The OAuth client's identifier.
    pub client_id: String,
    /// The OAuth client's secret.
    pub client_secret: String,
    /// The address the web server binds to.
    pub server_addr: String,
    /// The exporter's public URL, without `/callback`.
    pub redirect_uri: String,
    /// The key a user must present to authorize an account.
    pub auth_key: String,
}

impl Config {
    /// The URL at which a user starts the login: `{redirect_uri}/authorize?key={auth_key}`.
    pub open spec fn authorize_url(&self) -> Seq<char> {
        self.redirect_uri@ + "/authorize?key="@ + self.auth_key@
    }

    /// The URL at which a user starts the login.
    pub fn get_authorize_url(&self) -> (url: String)
        ensures
            url@ == self.authorize_url(),
    {
        let mut url = self.redirect_uri.clone();
        url.append("/authorize?key=");
        url.append(self.auth_key.as_str());
        url
    }
}

} // verus!
