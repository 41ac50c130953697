use vstd::prelude::*;

use crate::error::SpotifyError;
use crate::text::text_eq;

verus! {

/// Query pairs of a parsed URL, each key and value percent-decoded.
pub type QueryPairs = Seq<(Seq<char>, Seq<char>)>;

/// The query pairs of `s` read as an absolute URL, or `None` where `s` is no URL.
pub uninterp spec fn url_query_pairs_of(s: Seq<char>) -> Option<QueryPairs>;

/// Relies on `url::Url::parse` and `url::Url::query_pairs`: the pairs, in order,
/// depend on the text alone, and parsing fails exactly where the text is no URL.
#[verifier::external_body]
fn url_query_pairs(s: &str) -> (r: Result<Vec<(String, String)>, url::ParseError>)
    ensures
        match r {
            Ok(p) => url_query_pairs_of(s@) == Some(p.deep_view()),
            Err(_) => url_query_pairs_of(s@) is None,
        },
{
    let url = url::Url::parse(s)?;
    Ok(url.query_pairs().map(|(k, v)| (k.into_owned(), v.into_owned())).collect())
}

pub const MISSING_BOTH: &'static str = "missing both state and response parameters";

pub const MISSING_STATE: &'static str = "missing state parameter";

pub const MISSING_RESPONSE: &'static str = "missing response parameter";

/// The value of the first pair whose key is `k`.
pub open spec fn first_value(p: QueryPairs, k: Seq<char>) -> Option<Seq<char>>
    decreases p.len(),
{
    if p.len() == 0 {
        None
    } else if p[0].0 == k {
        Some(p[0].1)
    } else {
        first_value(p.drop_first(), k)
    }
}

/// What a redirect with query pairs `p` means: the fields of the callback
/// (code, error, state), or the message of the missing parameter.
pub open spec fn callback_of_pairs(p: QueryPairs) -> Result<
    (Option<Seq<char>>, Option<Seq<char>>, Seq<char>),
    Seq<char>,
> {
    let state = first_value(p, "state"@);
    let code = first_value(p, "code"@);
    let error = first_value(p, "error"@);
    let has_response = code is Some || error is Some;
    if state is None && !has_response {
        Err(MISSING_BOTH@)
    } else if state is None {
        Err(MISSING_STATE@)
    } else if !has_response {
        Err(MISSING_RESPONSE@)
    } else if code is Some {
        Ok((code, None, state->0))
    } else {
        Ok((None, error, state->0))
    }
}

/// `r` is the outcome that `m` describes.
pub open spec fn callback_matches(
    r: Result<SpotifyCallback, SpotifyError>,
    m: Result<(Option<Seq<char>>, Option<Seq<char>>, Seq<char>), Seq<char>>,
) -> bool {
    match (r, m) {
        (Ok(c), Ok(v)) => c@ == v,
        (Err(SpotifyError::CallbackFailure { context }), Err(msg)) => context@ == msg,
        _ => false,
    }
}

/// The redirect of the provider after the user granted or denied access.
#[derive(Debug, PartialEq)]
pub struct SpotifyCallback {
    /// An authorization code that can be exchanged for an access token.
    pub code: Option<String>,
    /// The reason authorization failed.
    pub error: Option<String>,
    /// The value of the `state` parameter supplied in the request.
    pub state: String,
}

impl View for SpotifyCallback {
    type V = (Option<Seq<char>>, Option<Seq<char>>, Seq<char>);

    open spec fn view(&self) -> Self::V {
        (self.code.deep_view(), self.error.deep_view(), self.state@)
    }
}

impl SpotifyCallback {
    /// Exactly one of code and error is present.
    pub open spec fn wf(&self) -> bool {
        self.code is Some != self.error is Some
    }

    /// A callback from its parts; exactly one of `code` and `error` is given.
    pub fn new(code: Option<String>, error: Option<String>, state: String) -> (r: Self)
        requires
            code is Some != error is Some,
        ensures
            r.code == code,
            r.error == error,
            r.state == state,
            r.wf(),
    {
        Self { code, error, state }
    }

    /// The authorization code, where access was granted.
    pub fn code(&self) -> (r: Option<String>)
        ensures
            r == self.code,
    {
        self.code.clone()
    }

    /// The reason of refusal, where access was denied.
    pub fn error(&self) -> (r: Option<String>)
        ensures
            r == self.error,
    {
        self.error.clone()
    }

    /// The anti-forgery token echoed by the provider.
    pub fn state(&self) -> (r: String)
        ensures
            r == self.state,
    {
        self.state.clone()
    }

    /// Reads the callback from the query pairs of the redirect URL.
    pub fn from_query_pairs(pairs: &Vec<(String, String)>) -> (r: Result<Self, SpotifyError>)
        ensures
            callback_matches(r, callback_of_pairs(pairs.deep_view())),
            r matches Ok(c) ==> c.wf(),
    {
        let state = first_value_of(pairs, "state");
        let code = first_value_of(pairs, "code");
        let error = first_value_of(pairs, "error");
        let has_response = code.is_some() || error.is_some();
        if state.is_none() && !has_response {
            return Err(SpotifyError::CallbackFailure { context: MISSING_BOTH });
        } else if state.is_none() {
            return Err(SpotifyError::CallbackFailure { context: MISSING_STATE });
        } else if !has_response {
            return Err(SpotifyError::CallbackFailure { context: MISSING_RESPONSE });
        }
        let state = match state {
            Some(s) => s,
            None => String::new(),
        };
        if code.is_some() {
            Ok(Self { code, error: None, state })
        } else {
            Ok(Self { code: None, error, state })
        }
    }

    /// Parses the redirect URL that the provider sent the user back to.
    pub fn from_str(s: &str) -> (r: Result<Self, SpotifyError>)
        ensures
            url_query_pairs_of(s@) is None <==> r matches Err(SpotifyError::ParseUrl(_)),
            url_query_pairs_of(s@) matches Some(p) ==> callback_matches(r, callback_of_pairs(p)),
            r matches Ok(c) ==> c.wf(),
    {
        match url_query_pairs(s) {
            Err(e) => Err(SpotifyError::ParseUrl(e)),
            Ok(pairs) => Self::from_query_pairs(&pairs),
        }
    }
}

/// The value of the first pair with key `key`.
fn first_value_of(pairs: &Vec<(String, String)>, key: &str) -> (r: Option<String>)
    ensures
        r.deep_view() == first_value(pairs.deep_view(), key@),
{
    let ghost p = pairs.deep_view();
    let mut i: usize = 0;
    assert(p.subrange(0, p.len() as int) =~= p);
    while i < pairs.len()
        invariant
            p == pairs.deep_view(),
            i <= pairs.len(),
            first_value(p, key@) == first_value(p.subrange(i as int, p.len() as int), key@),
        decreases pairs.len() - i,
    {
        let ghost rest = p.subrange(i as int, p.len() as int);
        assert(rest[0] == p[i as int]);
        if text_eq(pairs[i].0.as_str(), key) {
            return Some(pairs[i].1.clone());
        }
        assert(rest.drop_first() =~= p.subrange(i + 1, p.len() as int));
        i = i + 1;
    }
    None
}

} // verus!
