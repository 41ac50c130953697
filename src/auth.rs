use vstd::prelude::*;

use crate::callback::QueryPairs;
use crate::error::SpotifyError;
use crate::scope::{join_scopes, joined_text, SpotifyScope};
use crate::util::{generate_random_string, is_alphanumeric_byte};

verus! {

pub const SPOTIFY_AUTH_URL: &'static str = "https://accounts.spotify.com/authorize";

/// Length of the anti-forgery state that `SpotifyAuth::new` draws.
pub const STATE_LENGTH: usize = 20;

/// The text of `s` parsed as an absolute URL and written back in normal form,
/// or `None` where `s` is no URL.
pub uninterp spec fn url_text_of(s: Seq<char>) -> Option<Seq<char>>;

/// Relies on `url::Url::parse` and the `String` it converts into: the normal
/// form depends on the text alone, and parsing fails exactly where it is no URL.
#[verifier::external_body]
fn normalize_url(s: &str) -> (r: Result<String, url::ParseError>)
    ensures
        match r {
            Ok(t) => url_text_of(s@) == Some(t@),
            Err(_) => url_text_of(s@) is None,
        },
{
    Ok(url::Url::parse(s)?.into())
}

/// The text of the URL `base` with `pairs` appended, in order and
/// form-urlencoded, to its query; `None` where `base` is no URL.
pub uninterp spec fn url_with_query_of(base: Seq<char>, pairs: QueryPairs) -> Option<Seq<char>>;

/// Relies on `url::Url::parse`, `Url::query_pairs_mut` with
/// `Serializer::extend_pairs`, and the `String` the URL converts into: the
/// text depends on the base and the pairs alone.
#[verifier::external_body]
fn url_with_query(base: &str, pairs: &Vec<(String, String)>) -> (r: Result<String, url::ParseError>)
    ensures
        match r {
            Ok(t) => url_with_query_of(base@, pairs.deep_view()) == Some(t@),
            Err(_) => url_with_query_of(base@, pairs.deep_view()) is None,
        },
{
    let mut url = url::Url::parse(base)?;
    url.query_pairs_mut().extend_pairs(pairs.iter());
    Ok(url.into())
}

pub open spec fn bool_text(b: bool) -> Seq<char> {
    if b {
        "true"@
    } else {
        "false"@
    }
}

/// The query of the authorization URL, in order.
pub open spec fn authorize_pairs(
    client_id: Seq<char>,
    response_type: Seq<char>,
    redirect_uri: Seq<char>,
    state: Seq<char>,
    scope: Seq<SpotifyScope>,
    show_dialog: bool,
) -> QueryPairs {
    seq![
        ("client_id"@, client_id),
        ("response_type"@, response_type),
        ("redirect_uri"@, redirect_uri),
        ("state"@, state),
        ("scope"@, joined_text(scope)),
        ("show_dialog"@, bool_text(show_dialog)),
    ]
}

/// The parameters of an authorization request.
pub struct SpotifyAuth {
    /// The Spotify Application Client ID
    pub client_id: String,
    /// The Spotify Application Client Secret
    pub client_secret: String,
    /// Required by the Spotify API.
    pub response_type: String,
    /// The URI to redirect to after the user grants or denies permission, in
    /// the normal form of a parsed URL. `new` makes it so; a value built by
    /// hand is taken as it stands.
    pub redirect_uri: String,
    /// A random string that correlates the request with its callback.
    pub state: String,
    /// The scopes asked for.
    pub scope: Vec<SpotifyScope>,
    /// Whether or not to force the user to approve the app again.
    pub show_dialog: bool,
}

impl SpotifyAuth {
    /// The query pairs of the authorization URL of this request.
    pub open spec fn query_view(&self) -> QueryPairs {
        authorize_pairs(
            self.client_id@,
            self.response_type@,
            self.redirect_uri@,
            self.state@,
            self.scope@,
            self.show_dialog,
        )
    }

    /// A request with a fresh random state. Fails with `ParseUrl` where
    /// `redirect_uri` is no URL, else with `Random` where the entropy source
    /// cannot seed the generator.
    pub fn new(
        client_id: String,
        client_secret: String,
        response_type: String,
        redirect_uri: String,
        scope: Vec<SpotifyScope>,
        show_dialog: bool,
    ) -> (r: Result<Self, SpotifyError>)
        ensures
            url_text_of(redirect_uri@) is None <==> r matches Err(SpotifyError::ParseUrl(_)),
            r matches Err(e) ==> e is ParseUrl || e is Random,
            r matches Ok(a) ==> {
                &&& a.client_id == client_id
                &&& a.client_secret == client_secret
                &&& a.response_type == response_type
                &&& Some(a.redirect_uri@) == url_text_of(redirect_uri@)
                &&& a.scope == scope
                &&& a.show_dialog == show_dialog
                &&& a.state@.len() == STATE_LENGTH
                &&& forall|i: int|
                    0 <= i < a.state@.len() ==> is_alphanumeric_byte(#[trigger] a.state@[i] as u8)
                &&& forall|i: int| 0 <= i < a.state@.len() ==> (#[trigger] a.state@[i] as u32) < 128
            },
    {
        let redirect_uri = match normalize_url(redirect_uri.as_str()) {
            Ok(t) => t,
            Err(e) => return Err(SpotifyError::ParseUrl(e)),
        };
        let state = match generate_random_string(STATE_LENGTH) {
            Ok(s) => s,
            Err(e) => return Err(e),
        };
        Ok(Self {
            client_id,
            client_secret,
            response_type,
            redirect_uri,
            state,
            scope,
            show_dialog,
        })
    }

    /// The scopes as the authorization URL carries them: their texts joined by spaces.
    pub fn scope_into_string(&self) -> (r: String)
        ensures
            r@ == joined_text(self.scope@),
    {
        join_scopes(&self.scope)
    }

    /// The query pairs of the authorization URL; the secret is not among them.
    pub fn authorize_query(&self) -> (r: Vec<(String, String)>)
        ensures
            r.deep_view() == self.query_view(),
    {
        let mut r: Vec<(String, String)> = Vec::new();
        r.push((String::from_str("client_id"), self.client_id.clone()));
        r.push((String::from_str("response_type"), self.response_type.clone()));
        r.push((String::from_str("redirect_uri"), self.redirect_uri.clone()));
        r.push((String::from_str("state"), self.state.clone()));
        r.push((String::from_str("scope"), self.scope_into_string()));
        let dialog = if self.show_dialog {
            String::from_str("true")
        } else {
            String::from_str("false")
        };
        r.push((String::from_str("show_dialog"), dialog));
        assert(r.deep_view() =~= self.query_view());
        r
    }

    /// The authorization URL that the user visits to grant access.
    pub fn authorize_url(&self) -> (r: Result<String, SpotifyError>)
        ensures
            url_with_query_of(SPOTIFY_AUTH_URL@, self.query_view()) matches Some(t) ==> (r matches Ok(
                u,
            ) && u@ == t),
            url_with_query_of(SPOTIFY_AUTH_URL@, self.query_view()) is None ==> (r matches Err(e)
                && e is ParseUrl),
    {
        let pairs = self.authorize_query();
        match url_with_query(SPOTIFY_AUTH_URL, &pairs) {
            Ok(t) => Ok(t),
            Err(e) => Err(SpotifyError::ParseUrl(e)),
        }
    }
}

/// The authorization URL is a function of the public fields of the request
/// alone: two requests that agree on them, whatever their secrets, render
/// the same URL, and rendering one request twice gives the same text.
pub proof fn lemma_authorize_url_ignores_secret(a: &SpotifyAuth, b: &SpotifyAuth)
    requires
        a.client_id@ == b.client_id@,
        a.response_type@ == b.response_type@,
        a.redirect_uri@ == b.redirect_uri@,
        a.state@ == b.state@,
        a.scope@ == b.scope@,
        a.show_dialog == b.show_dialog,
    ensures
        a.query_view() == b.query_view(),
        url_with_query_of(SPOTIFY_AUTH_URL@, a.query_view()) == url_with_query_of(
            SPOTIFY_AUTH_URL@,
            b.query_view(),
        ),
{
}

} // verus!
