use vstd::prelude::*;
use vstd::utf8::encode_utf8;

use crate::text::{decimal_of, decimal_text};

verus! {

#[verifier::external_type_specification]
#[verifier::external_body]
pub struct ExAnyhowError(anyhow::Error);

/// The text of `bytes` in base64, standard alphabet, padded.
pub uninterp spec fn base64_of(bytes: Seq<u8>) -> Seq<char>;

/// Relies on `base64::encode`, which encodes with the standard alphabet and
/// padding: the text depends on the bytes alone.
#[verifier::external_body]
fn base64_encode(bytes: &[u8]) -> (r: String)
    ensures
        r@ == base64_of(bytes@),
{
    base64::encode(bytes)
}

pub const TOKEN_METHOD: &'static str = "POST";

pub const SPOTIFY_TOKEN_URL: &'static str = "https://accounts.spotify.com/api/token";

/// The identity of the application registered with Spotify.
#[derive(Debug)]
pub struct AppClient {
    pub id: String,
    pub secret: String,
}

/// The value of the Basic authorization header for a client.
pub open spec fn basic_auth_value(id: Seq<char>, secret: Seq<char>) -> Seq<char> {
    "Basic "@ + base64_of(encode_utf8(id + ":"@ + secret))
}

/// An HTTP header of the token request.
#[derive(Debug)]
pub struct Header {
    pub name: String,
    pub value: String,
}

impl View for Header {
    type V = (Seq<char>, Seq<char>);

    open spec fn view(&self) -> Self::V {
        (self.name@, self.value@)
    }
}

impl Header {
    fn new(name: &str, value: String) -> (r: Self)
        ensures
            r@ == (name@, value@),
    {
        Self { name: String::from_str(name), value }
    }

    pub fn name(&self) -> (r: String)
        ensures
            r@ == self.name@,
    {
        self.name.clone()
    }

    pub fn value(&self) -> (r: String)
        ensures
            r@ == self.value@,
    {
        self.value.clone()
    }
}

/// The form body of the token request.
#[derive(Debug)]
pub struct FormData {
    pub grant_type: &'static str,
    pub code: String,
    pub redirect_uri: String,
}

impl FormData {
    /// The three fields of the form, in order, as key and value.
    pub fn iter(&self) -> (r: Vec<(String, String)>)
        ensures
            r.deep_view() == seq![
                ("grant_type"@, self.grant_type@),
                ("code"@, self.code@),
                ("redirect_uri"@, self.redirect_uri@),
            ],
    {
        let mut r: Vec<(String, String)> = Vec::new();
        r.push((String::from_str("grant_type"), String::from_str(self.grant_type)));
        r.push((String::from_str("code"), self.code.clone()));
        r.push((String::from_str("redirect_uri"), self.redirect_uri.clone()));
        assert(r.deep_view() =~= seq![
            ("grant_type"@, self.grant_type@),
            ("code"@, self.code@),
            ("redirect_uri"@, self.redirect_uri@),
        ]);
        r
    }
}

/// The POST that exchanges an authorization code for a token.
#[derive(Debug)]
pub struct TokenRequest {
    pub auth_header: Header,
    pub content_type: Header,
    pub form_data: FormData,
}

impl TokenRequest {
    /// This is the request that exchanges `code` for a token, authenticated as
    /// the client with `id` and `secret`.
    pub open spec fn is_for(
        &self,
        id: Seq<char>,
        secret: Seq<char>,
        code: Seq<char>,
        redirect_uri: Seq<char>,
    ) -> bool {
        &&& self.auth_header@ == ("Authorization"@, basic_auth_value(id, secret))
        &&& self.content_type@ == ("Content-type"@, "application/x-www-form-urlencoded"@)
        &&& self.form_data.grant_type@ == "authorization_code"@
        &&& self.form_data.code@ == code
        &&& self.form_data.redirect_uri@ == redirect_uri
    }

    /// The request for `code`, authenticated as `app_client`.
    pub fn new(app_client: &AppClient, code: String, redirect_uri: String) -> (r: Self)
        ensures
            r.is_for(app_client.id@, app_client.secret@, code@, redirect_uri@),
    {
        let mut credentials = String::from_str(app_client.id.as_str());
        credentials.append(":");
        credentials.append(app_client.secret.as_str());
        let encoded = base64_encode(credentials.as_str().as_bytes());
        let mut value = String::from_str("Basic ");
        value.append(encoded.as_str());
        let auth_header = Header::new("Authorization", value);
        let content_type = Header::new(
            "Content-type",
            String::from_str("application/x-www-form-urlencoded"),
        );
        let form_data = FormData { grant_type: "authorization_code", code, redirect_uri };
        Self { auth_header, content_type, form_data }
    }

    pub fn method(&self) -> (r: &'static str)
        ensures
            r@ == TOKEN_METHOD@,
    {
        TOKEN_METHOD
    }

    pub fn url(&self) -> (r: &'static str)
        ensures
            r@ == SPOTIFY_TOKEN_URL@,
    {
        SPOTIFY_TOKEN_URL
    }

    /// The authorization header, then the content type.
    pub fn headers(&self) -> (r: Vec<Header>)
        ensures
            r@.len() == 2,
            r@[0]@ == self.auth_header@,
            r@[1]@ == self.content_type@,
    {
        let mut r: Vec<Header> = Vec::new();
        r.push(Header { name: self.auth_header.name(), value: self.auth_header.value() });
        r.push(Header { name: self.content_type.name(), value: self.content_type.value() });
        r
    }

    pub fn form_data(&self) -> (r: &FormData)
        ensures
            r == &self.form_data,
    {
        &self.form_data
    }
}

/// A failure of the HTTP transport, with the response status where one came.
#[derive(Debug)]
pub struct HttpClientError {
    pub source: anyhow::Error,
    /// Response status code (if available)
    pub status_code: Option<u16>,
}

/// The message of a transport failure with status `status` and cause `source`.
pub open spec fn http_error_text(status: Option<u16>, source: Seq<char>) -> Seq<char> {
    match status {
        Some(code) => "HTTP client request failed with status "@ + decimal_of(code as nat) + ": "@
            + source,
        None => "HTTP client request failed: "@ + source,
    }
}

/// Writes the message of a transport failure from its status and the text of its cause.
pub fn http_error_message(status: Option<u16>, source: &str) -> (r: String)
    ensures
        r@ == http_error_text(status, source@),
{
    match status {
        Some(code) => {
            let mut r = String::from_str("HTTP client request failed with status ");
            let digits = decimal_text(code as u64);
            r.append(digits.as_str());
            r.append(": ");
            r.append(source);
            r
        },
        None => {
            let mut r = String::from_str("HTTP client request failed: ");
            r.append(source);
            r
        },
    }
}

impl HttpClientError {
    pub fn new(source: anyhow::Error, status_code: Option<u16>) -> (r: Self)
        ensures
            r.source == source,
            r.status_code == status_code,
    {
        Self { source, status_code }
    }

    /// The message of the failure, with the text of its cause.
    pub fn to_string(&self) -> (r: String)
        ensures
            exists|t: Seq<char>| r@ == http_error_text(self.status_code, t),
    {
        let source = self.source.to_string();
        http_error_message(self.status_code, source.as_str())
    }
}

} // verus!
