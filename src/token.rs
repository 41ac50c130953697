use vstd::prelude::*;

use crate::error::SpotifyError;
use crate::scope::{is_scope_failure, scope_of_text, SpotifyScope};
use crate::util::{expiry_of, timestamp_after};

verus! {

/// The words of `s`, split at runs of Unicode white space.
pub uninterp spec fn whitespace_words_of(s: Seq<char>) -> Seq<Seq<char>>;

/// Relies on `str::split_whitespace`: the words depend on the text alone, and
/// an empty text has none.
#[verifier::external_body]
fn split_whitespace(s: &str) -> (r: Vec<String>)
    ensures
        r.deep_view() == whitespace_words_of(s@),
        s@.len() == 0 ==> r@.len() == 0,
{
    s.split_whitespace().map(|w| w.to_string()).collect()
}

/// The token fields as the provider sends them; `scope` is `None` where the
/// field is absent or not a string.
#[derive(Debug)]
pub struct TokenResponse {
    pub access_token: String,
    pub token_type: String,
    pub scope: Option<String>,
    pub expires_in: u32,
    pub refresh_token: String,
}

/// A token granted by the provider.
#[derive(Debug, PartialEq)]
pub struct SpotifyToken {
    /// An access token that can be provided in subsequent calls to the Web API.
    pub access_token: String,
    /// How the access token may be used.
    pub token_type: String,
    /// The scopes granted for this access token.
    pub scope: Vec<SpotifyScope>,
    /// The time period (in seconds) for which the access token is valid.
    pub expires_in: u32,
    /// When the token expires, in seconds since the Unix epoch.
    pub expires_at: Option<i64>,
    /// A token that can be sent in place of an authorization code to request
    /// a new access token.
    pub refresh_token: String,
}

/// Every word names a scope.
pub open spec fn all_scope_words(w: Seq<Seq<char>>) -> bool {
    forall|i: int| 0 <= i < w.len() ==> (#[trigger] scope_of_text(w[i])) is Some
}

/// The scopes named by `w`, in order; meaningful where `all_scope_words(w)`.
pub open spec fn scopes_of_words(w: Seq<Seq<char>>) -> Seq<SpotifyScope> {
    w.map_values(|t: Seq<char>| scope_of_text(t)->0)
}

/// `e` names the first word of `w` that is no scope.
pub open spec fn names_first_unknown(e: SpotifyError, w: Seq<Seq<char>>) -> bool {
    exists|j: int|
        0 <= j < w.len() && scope_of_text(#[trigger] w[j]) is None && is_scope_failure(e, w[j])
            && forall|k: int| 0 <= k < j ==> (#[trigger] scope_of_text(w[k])) is Some
}

/// Reads each word as a scope, stopping at the first that is none.
pub fn parse_scope_words(words: &Vec<String>) -> (r: Result<Vec<SpotifyScope>, SpotifyError>)
    ensures
        r is Ok <==> all_scope_words(words.deep_view()),
        r matches Ok(v) ==> v@ == scopes_of_words(words.deep_view()),
        r matches Err(e) ==> names_first_unknown(e, words.deep_view()),
{
    let ghost w = words.deep_view();
    let mut parsed: Vec<SpotifyScope> = Vec::new();
    let mut i: usize = 0;
    while i < words.len()
        invariant
            w == words.deep_view(),
            i <= words.len(),
            forall|k: int| 0 <= k < i ==> (#[trigger] scope_of_text(w[k])) is Some,
            parsed@ == scopes_of_words(w.subrange(0, i as int)),
        decreases words.len() - i,
    {
        match SpotifyScope::from_str(words[i].as_str()) {
            Ok(s) => {
                parsed.push(s);
                assert(scopes_of_words(w.subrange(0, i + 1)) =~= scopes_of_words(
                    w.subrange(0, i as int),
                ).push(s));
            },
            Err(e) => {
                assert(scope_of_text(w[i as int]) is None);
                return Err(e);
            },
        }
        i = i + 1;
    }
    assert(w.subrange(0, w.len() as int) =~= w);
    Ok(parsed)
}

/// The scopes of the `scope` field: none where the field is absent, else each
/// white-space separated word read as a scope.
pub fn deserialize_scope_field(text: Option<&str>) -> (r: Result<Vec<SpotifyScope>, SpotifyError>)
    ensures
        text is None ==> (r matches Ok(v) && v@.len() == 0),
        text matches Some(t) ==> {
            let w = whitespace_words_of(t@);
            &&& r is Ok <==> all_scope_words(w)
            &&& r matches Ok(v) ==> v@ == scopes_of_words(w)
            &&& r matches Err(e) ==> names_first_unknown(e, w)
        },
        (text matches Some(t) && t@.len() == 0) ==> (r matches Ok(v) && v@.len() == 0),
{
    match text {
        None => Ok(Vec::new()),
        Some(t) => {
            let words = split_whitespace(t);
            parse_scope_words(&words)
        },
    }
}

impl SpotifyToken {
    /// The token that `response` describes, received when the clock read
    /// `now_secs` seconds since the Unix epoch (`None`: before the epoch).
    pub fn from_response(response: TokenResponse, now_secs: Option<u64>) -> (r: Result<
        Self,
        SpotifyError,
    >)
        ensures
            match response.scope {
                None => r is Ok,
                Some(t) => {
                    let w = whitespace_words_of(t@);
                    &&& r is Ok <==> all_scope_words(w)
                    &&& r matches Ok(tok) ==> tok.scope@ == scopes_of_words(w)
                    &&& r matches Err(e) ==> names_first_unknown(e, w)
                },
            },
            r matches Ok(tok) ==> {
                &&& tok.access_token == response.access_token
                &&& tok.token_type == response.token_type
                &&& tok.expires_in == response.expires_in
                &&& tok.refresh_token == response.refresh_token
                &&& tok.expires_at == match now_secs {
                    Some(n) => expiry_of(n as int, response.expires_in as int),
                    None => None,
                }
                &&& response.scope is None ==> tok.scope@.len() == 0
            },
    {
        let scope = match &response.scope {
            None => deserialize_scope_field(None),
            Some(t) => deserialize_scope_field(Some(t.as_str())),
        };
        match scope {
            Err(e) => Err(e),
            Ok(scope) => Ok(SpotifyToken {
                access_token: response.access_token,
                token_type: response.token_type,
                scope,
                expires_in: response.expires_in,
                expires_at: match now_secs {
                    Some(n) => timestamp_after(n, response.expires_in),
                    None => None,
                },
                refresh_token: response.refresh_token,
            }),
        }
    }
}

} // verus!
