//! Client side of the Spotify OAuth2 authorization code flow: the
//! authorization URL, the parsing of the provider's redirect, and the
//! decisions around the token exchange.

mod auth;
mod callback;
mod error;
mod exchange;
mod fetch;
mod scope;
mod text;
mod token;
mod util;

pub use crate::auth::{
    authorize_pairs, bool_text, lemma_authorize_url_ignores_secret, url_text_of, url_with_query_of,
    SpotifyAuth, SPOTIFY_AUTH_URL, STATE_LENGTH,
};
pub use crate::callback::{
    callback_matches, callback_of_pairs, first_value, url_query_pairs_of, QueryPairs, SpotifyCallback,
    MISSING_BOTH, MISSING_RESPONSE, MISSING_STATE,
};
pub use crate::error::{SpotifyError, SpotifyResult};
pub use crate::exchange::{is_token_failure, token_from_response, token_request_for, NO_CODE};
pub use crate::fetch::{
    base64_of, basic_auth_value, http_error_message, http_error_text, AppClient, FormData, Header,
    HttpClientError, TokenRequest, SPOTIFY_TOKEN_URL, TOKEN_METHOD,
};
pub use crate::scope::{
    is_scope_failure, join_scopes, joined_text, lemma_scope_round_trip, scope_of_text, scope_text,
    SpotifyScope,
};
pub use crate::text::{decimal_of, decimal_text, digit_char};
pub use crate::token::{
    all_scope_words, deserialize_scope_field, names_first_unknown, parse_scope_words,
    scopes_of_words, whitespace_words_of, SpotifyToken, TokenResponse,
};
pub use crate::util::{
    datetime_to_timestamp, expiry_of, generate_random_string, is_alphanumeric_byte, timestamp_after,
};
