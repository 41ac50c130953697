use vstd::prelude::*;

use crate::callback::SpotifyCallback;
use crate::error::SpotifyError;
use crate::fetch::{AppClient, HttpClientError, TokenRequest};
use crate::token::{
    all_scope_words, names_first_unknown, scopes_of_words, whitespace_words_of, SpotifyToken,
    TokenResponse,
};
use crate::util::{expiry_of, unix_now_secs};

verus! {

pub const NO_CODE: &'static str = "callback did not contain an authorization code";

pub open spec fn is_token_failure(e: SpotifyError, context: Seq<char>) -> bool {
    match e {
        SpotifyError::TokenFailure { context: c } => c@ == context,
        _ => false,
    }
}

/// The request that exchanges the code of `callback` for a token. A callback
/// that carries no code fails here, before anything is sent.
pub fn token_request_for(
    callback: SpotifyCallback,
    app_client: &AppClient,
    redirect_uri: String,
) -> (r: Result<TokenRequest, SpotifyError>)
    ensures
        callback.code is None <==> r is Err,
        r matches Err(e) ==> is_token_failure(e, NO_CODE@),
        r matches Ok(req) ==> req.is_for(
            app_client.id@,
            app_client.secret@,
            callback.code->0@,
            redirect_uri@,
        ),
{
    match callback.code {
        None => Err(SpotifyError::TokenFailure { context: NO_CODE }),
        Some(code) => Ok(TokenRequest::new(app_client, code, redirect_uri)),
    }
}

/// The token from what the transport returned for the token request, read
/// once: a transport failure is passed on as it came.
pub fn token_from_response(response: Result<TokenResponse, HttpClientError>) -> (r: Result<
    SpotifyToken,
    SpotifyError,
>)
    ensures
        response matches Err(e) ==> r == Err::<SpotifyToken, SpotifyError>(
            SpotifyError::HttpClient(e),
        ),
        response matches Ok(resp) ==> match resp.scope {
            None => r is Ok,
            Some(t) => {
                let w = whitespace_words_of(t@);
                &&& r is Ok <==> all_scope_words(w)
                &&& r matches Ok(tok) ==> tok.scope@ == scopes_of_words(w)
                &&& r matches Err(e) ==> names_first_unknown(e, w)
            },
        },
        response matches Ok(resp) ==> (r matches Ok(tok) ==> {
            &&& tok.access_token == resp.access_token
            &&& tok.token_type == resp.token_type
            &&& tok.expires_in == resp.expires_in
            &&& tok.refresh_token == resp.refresh_token
            &&& tok.expires_at matches Some(at) ==> at >= resp.expires_in
            &&& tok.expires_at is None || exists|n: u64|
                tok.expires_at == expiry_of(n as int, resp.expires_in as int)
            &&& resp.scope is None ==> tok.scope@.len() == 0
        }),
{
    match response {
        Err(e) => Err(SpotifyError::HttpClient(e)),
        Ok(resp) => {
            let now = unix_now_secs();
            SpotifyToken::from_response(resp, now)
        },
    }
}

} // verus!
