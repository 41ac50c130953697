use vstd::prelude::*;

use crate::fetch::{http_error_text, HttpClientError};

verus! {

#[verifier::external_type_specification]
#[verifier::external_body]
pub struct ExJsonError(serde_json::Error);

#[verifier::external_type_specification]
#[verifier::external_body]
pub struct ExUrlParseError(url::ParseError);

#[verifier::external_type_specification]
#[verifier::external_body]
pub struct ExRandError(rand::Error);

/// Everything that can go wrong in the authorization flow.
#[derive(Debug)]
pub enum SpotifyError {
    /// The token response was not the expected JSON.
    SerdeJson(serde_json::Error),
    /// A URL did not parse.
    ParseUrl(url::ParseError),
    /// The transport failed, or the provider answered with an error status.
    HttpClient(HttpClientError),
    /// The operating system's entropy source could not seed the generator.
    Random(rand::Error),
    /// The exchange could not produce a token.
    TokenFailure { context: &'static str },
    /// The redirect URL lacks a required query parameter.
    CallbackFailure { context: &'static str },
    /// A scope text names no known scope.
    ScopeFailure { token: String },
}

impl SpotifyError {
    /// The message of the error; an error of another crate, or of the
    /// transport, gives its own.
    pub fn to_string(&self) -> (r: String)
        ensures
            self matches SpotifyError::TokenFailure { context } ==> r@ == "Token parsing failure: "@
                + context@,
            self matches SpotifyError::CallbackFailure { context } ==> r@
                == "Callback URL parsing failure: "@ + context@,
            self matches SpotifyError::ScopeFailure { token } ==> r@ == "Unknown scope: "@ + token@,
            self matches SpotifyError::HttpClient(e) ==> exists|t: Seq<char>|
                r@ == http_error_text(e.status_code, t),
    {
        match self {
            SpotifyError::SerdeJson(e) => e.to_string(),
            SpotifyError::ParseUrl(e) => e.to_string(),
            SpotifyError::HttpClient(e) => e.to_string(),
            SpotifyError::Random(e) => e.to_string(),
            SpotifyError::TokenFailure { context } => {
                let mut r = String::from_str("Token parsing failure: ");
                r.append(context);
                r
            },
            SpotifyError::CallbackFailure { context } => {
                let mut r = String::from_str("Callback URL parsing failure: ");
                r.append(context);
                r
            },
            SpotifyError::ScopeFailure { token } => {
                let mut r = String::from_str("Unknown scope: ");
                r.append(token.as_str());
                r
            },
        }
    }
}

/// Result type of the library.
pub type SpotifyResult<T> = Result<T, SpotifyError>;

} // verus!
