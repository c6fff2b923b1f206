//! The exporter's error type.

use vstd::prelude::*;

verus! {

/// What went wrong. The variants that come from another library carry that
/// library's error as its debug rendering (`{:?}`).
pub enum Error {
    /// An I/O operation failed.
    IOError(String),
    /// The configuration file could not be parsed.
    TOMLError(String),
    /// An environment variable could not be read.
    EnvVarError(String),
    /// An HTTP request failed, or its reply could not be decoded.
    HTTPError(String),
    /// JSON could not be encoded or decoded.
    JsonError(String),
    /// There are no tokens: the user has not authorized the exporter yet.
    NotLoggedIn,
}

/// `name(detail)`, the debug rendering of a one-field tuple variant.
pub open spec fn tuple_variant_text(name: Seq<char>, detail: Seq<char>) -> Seq<char> {
    name + "("@ + detail + ")"@
}

impl Error {
    /// The debug rendering of the error, as `{:?}` renders it.
    pub open spec fn debug_text(&self) -> Seq<char> {
        match self {
            Error::IOError(d) => tuple_variant_text("IOError"@, d@),
            Error::TOMLError(d) => tuple_variant_text("TOMLError"@, d@),
            Error::EnvVarError(d) => tuple_variant_text("EnvVarError"@, d@),
            Error::HTTPError(d) => tuple_variant_text("HTTPError"@, d@),
            Error::JsonError(d) => tuple_variant_text("JsonError"@, d@),
            Error::NotLoggedIn => "NotLoggedIn"@,
        }
    }

    /// Renders the error as `{:?}` does.
    pub fn debug_string(&self) -> (s: String)
        ensures
            s@ == self.debug_text(),
    {
        match self {
            Error::IOError(d) => tuple_variant_string("IOError", d),
            Error::TOMLError(d) => tuple_variant_string("TOMLError", d),
            Error::EnvVarError(d) => tuple_variant_string("EnvVarError", d),
            Error::HTTPError(d) => tuple_variant_string("HTTPError", d),
            Error::JsonError(d) => tuple_variant_string("JsonError", d),
            Error::NotLoggedIn => "NotLoggedIn".to_owned(),
        }
    }

    /// The error as the `Err` of a `Result`.
    pub fn into_result<T>(self) -> (r: Result<T, Error>)
        ensures
            r == Err::<T, Error>(self),
    {
        Err(self)
    }
}

fn tuple_variant_string(name: &str, detail: &String) -> (s: String)
    ensures
        s@ == tuple_variant_text(name@, detail@),
{
    let mut s = name.to_owned();
    s.append("(");
    s.append(detail.as_str());
    s.append(")");
    s
}

} // verus!
