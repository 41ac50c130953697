use spotify_oauth::{
    generate_random_string, token_from_response, token_request_for, AppClient, HttpClientError,
    SpotifyCallback, SpotifyError, SpotifyScope, TokenResponse,
};

fn client() -> AppClient {
    AppClient { id: "id".to_string(), secret: "secret".to_string() }
}

fn now_secs() -> i64 {
    std::time::SystemTime::now()
        .duration_since(std::time::UNIX_EPOCH)
        .unwrap()
        .as_secs() as i64
}

#[test]
fn denied_callback_fails_before_any_request() {
    let cb = SpotifyCallback::new(None, Some("access_denied".to_string()), "sN".to_string());
    match token_request_for(cb, &client(), "http://localhost/cb".to_string()) {
        Err(e) => assert_eq!(
            e.to_string(),
            "Token parsing failure: callback did not contain an authorization code"
        ),
        Ok(_) => panic!("a denied callback must not produce a request"),
    }
}

#[test]
fn granted_callback_gives_the_request() {
    let cb = SpotifyCallback::new(Some("AQD".to_string()), None, "sN".to_string());
    let req = token_request_for(cb, &client(), "http://localhost/cb".to_string()).unwrap();
    let form = req.form_data().iter();
    assert_eq!(form[1], ("code".to_string(), "AQD".to_string()));
    assert_eq!(form[2], ("redirect_uri".to_string(), "http://localhost/cb".to_string()));
    assert_eq!(req.headers()[0].value(), "Basic aWQ6c2VjcmV0");
}

#[test]
fn stub_response_becomes_a_token() {
    let resp = TokenResponse {
        access_token: "A".to_string(),
        token_type: "Bearer".to_string(),
        scope: Some("user-read-private user-read-email".to_string()),
        expires_in: 3600,
        refresh_token: "R".to_string(),
    };
    let token = token_from_response(Ok(resp)).unwrap();
    assert_eq!(token.access_token, "A");
    assert_eq!(token.token_type, "Bearer");
    assert_eq!(token.refresh_token, "R");
    assert_eq!(token.scope, vec![SpotifyScope::UserReadPrivate, SpotifyScope::UserReadEmail]);
    let at = token.expires_at.unwrap();
    assert!((at - (now_secs() + 3600)).abs() <= 2);
}

#[test]
fn transport_status_is_passed_on() {
    let failure = HttpClientError::new(anyhow::Error::msg("Failed to fetch token: invalid_grant"), Some(400));
    match token_from_response(Err(failure)) {
        Err(SpotifyError::HttpClient(e)) => assert_eq!(e.status_code, Some(400)),
        other => panic!("unexpected {:?}", other),
    }
}

#[test]
fn unknown_granted_scope_fails_the_exchange() {
    let resp = TokenResponse {
        access_token: "A".to_string(),
        token_type: "Bearer".to_string(),
        scope: Some("streaming made-up".to_string()),
        expires_in: 1,
        refresh_token: "R".to_string(),
    };
    match token_from_response(Ok(resp)) {
        Err(SpotifyError::ScopeFailure { token }) => assert_eq!(token, "made-up"),
        other => panic!("unexpected {:?}", other),
    }
}

#[test]
fn random_strings_are_alphanumeric() {
    let s = generate_random_string(64).unwrap();
    assert_eq!(s.len(), 64);
    assert!(s.chars().all(|c| c.is_ascii_alphanumeric()));
    assert_eq!(generate_random_string(0).unwrap(), "");
}
