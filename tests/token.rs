use spotify_oauth::{
    datetime_to_timestamp, deserialize_scope_field, parse_scope_words, timestamp_after,
    SpotifyError, SpotifyScope, SpotifyToken, TokenResponse,
};

fn response_from_json(text: &str) -> TokenResponse {
    let v: serde_json::Value = serde_json::from_str(text).unwrap();
    TokenResponse {
        access_token: v["access_token"].as_str().unwrap().to_string(),
        token_type: v["token_type"].as_str().unwrap().to_string(),
        scope: v["scope"].as_str().map(|s| s.to_string()),
        expires_in: v["expires_in"].as_u64().unwrap() as u32,
        refresh_token: v["refresh_token"].as_str().unwrap().to_string(),
    }
}

#[test]
fn test_token_parse() {
    let token_json = r#"{
       "access_token": "NgCXRKDjGUSKlfJODUjvnSUhcOMzYjw",
       "token_type": "Bearer",
       "scope": "user-read-private user-read-email",
       "expires_in": 3600,
       "refresh_token": "NgAagAHfVxDkSvCUm_SHo"
    }"#;

    let now = std::time::SystemTime::now()
        .duration_since(std::time::UNIX_EPOCH)
        .unwrap()
        .as_secs();
    let token = SpotifyToken::from_response(response_from_json(token_json), Some(now)).unwrap();
    let timestamp = timestamp_after(now, token.expires_in).unwrap();

    assert_eq!(
        SpotifyToken {
            access_token: "NgCXRKDjGUSKlfJODUjvnSUhcOMzYjw".to_string(),
            token_type: "Bearer".to_string(),
            scope: vec![SpotifyScope::UserReadPrivate, SpotifyScope::UserReadEmail],
            expires_in: 3600,
            expires_at: Some(timestamp),
            refresh_token: "NgAagAHfVxDkSvCUm_SHo".to_string()
        },
        token
    );
}

#[test]
fn scope_field_edge_cases() {
    assert_eq!(deserialize_scope_field(None).unwrap(), vec![]);
    assert_eq!(deserialize_scope_field(Some("")).unwrap(), vec![]);
    assert_eq!(deserialize_scope_field(Some("   ")).unwrap(), vec![]);
    assert_eq!(
        deserialize_scope_field(Some(" streaming\tuser-top-read\n")).unwrap(),
        vec![SpotifyScope::Streaming, SpotifyScope::UserTopRead]
    );
    match deserialize_scope_field(Some("streaming nope user-top-read also-no")) {
        Err(SpotifyError::ScopeFailure { token }) => assert_eq!(token, "nope"),
        other => panic!("unexpected {:?}", other),
    }
}

#[test]
fn parse_scope_words_keeps_order() {
    let words = vec!["user-read-email".to_string(), "streaming".to_string()];
    assert_eq!(
        parse_scope_words(&words).unwrap(),
        vec![SpotifyScope::UserReadEmail, SpotifyScope::Streaming]
    );
}

#[test]
fn token_without_scope_field_has_no_scopes() {
    let resp = TokenResponse {
        access_token: "A".to_string(),
        token_type: "Bearer".to_string(),
        scope: None,
        expires_in: 10,
        refresh_token: "R".to_string(),
    };
    let token = SpotifyToken::from_response(resp, Some(100)).unwrap();
    assert!(token.scope.is_empty());
    assert_eq!(token.expires_at, Some(110));
}

#[test]
fn expiry_arithmetic() {
    assert_eq!(timestamp_after(1000, 3600), Some(4600));
    assert_eq!(timestamp_after(i64::MAX as u64, 0), Some(i64::MAX));
    assert_eq!(timestamp_after(i64::MAX as u64, 1), None);
    assert_eq!(timestamp_after(u64::MAX, 0), None);
    let t = datetime_to_timestamp(3600).unwrap();
    let now = std::time::SystemTime::now()
        .duration_since(std::time::UNIX_EPOCH)
        .unwrap()
        .as_secs() as i64;
    assert!((t - (now + 3600)).abs() <= 2);
}

#[test]
fn token_before_epoch_has_no_expiry() {
    let resp = TokenResponse {
        access_token: "A".to_string(),
        token_type: "Bearer".to_string(),
        scope: Some("streaming".to_string()),
        expires_in: 10,
        refresh_token: "R".to_string(),
    };
    let token = SpotifyToken::from_response(resp, None).unwrap();
    assert_eq!(token.expires_at, None);
    assert_eq!(token.scope, vec![SpotifyScope::Streaming]);
}
