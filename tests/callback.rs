use spotify_oauth::{SpotifyCallback, SpotifyError};

#[test]
fn test_parse_callback_code() {
    let url = String::from("http://localhost:8888/callback?code=AQD0yXvFEOvw&state=sN");

    assert_eq!(
        SpotifyCallback::from_str(&url).unwrap(),
        SpotifyCallback::new(Some("AQD0yXvFEOvw".to_string()), None, "sN".to_string())
    );
}

#[test]
fn test_parse_callback_error() {
    let url = String::from("http://localhost:8888/callback?error=access_denied&state=sN");

    assert_eq!(
        SpotifyCallback::from_str(&url).unwrap(),
        SpotifyCallback::new(None, Some("access_denied".to_string()), "sN".to_string())
    );
}

#[test]
fn test_invalid_response_parse() {
    let url = String::from("http://localhost:8888/callback?state=sN");

    assert_eq!(
        SpotifyCallback::from_str(&url).unwrap_err().to_string(),
        "Callback URL parsing failure: missing response parameter"
    );
}

#[test]
fn test_invalid_parse() {
    let url = String::from("http://localhost:8888/callback");

    assert_eq!(
        SpotifyCallback::from_str(&url).unwrap_err().to_string(),
        "Callback URL parsing failure: missing both state and response parameters"
    );
}

#[test]
fn granted_callback_carries_code_and_state() {
    let cb = SpotifyCallback::from_str("https://x/cb?code=AQD0yXvFEOvw&state=sN").unwrap();
    assert_eq!(cb.code(), Some("AQD0yXvFEOvw".to_string()));
    assert_eq!(cb.error(), None);
    assert_eq!(cb.state(), "sN");
}

#[test]
fn denied_callback_carries_error_and_state() {
    let cb = SpotifyCallback::from_str("https://x/cb?error=access_denied&state=sN").unwrap();
    assert_eq!(
        cb,
        SpotifyCallback::new(None, Some("access_denied".to_string()), "sN".to_string())
    );
}

#[test]
fn callback_without_response_fails() {
    let err = SpotifyCallback::from_str("https://x/cb?state=sN").unwrap_err();
    assert_eq!(
        err.to_string(),
        "Callback URL parsing failure: missing response parameter"
    );
}

#[test]
fn callback_without_query_fails() {
    let err = SpotifyCallback::from_str("https://x/cb").unwrap_err();
    assert_eq!(
        err.to_string(),
        "Callback URL parsing failure: missing both state and response parameters"
    );
}

#[test]
fn callback_without_state_fails() {
    let err = SpotifyCallback::from_str("https://x/cb?code=abc").unwrap_err();
    assert_eq!(
        err.to_string(),
        "Callback URL parsing failure: missing state parameter"
    );
}

#[test]
fn callback_that_is_no_url_fails() {
    let err = SpotifyCallback::from_str("not a url").unwrap_err();
    assert!(matches!(err, SpotifyError::ParseUrl(_)));
}

#[test]
fn code_wins_over_error() {
    let cb = SpotifyCallback::from_str("https://x/cb?error=e&code=c&state=s").unwrap();
    assert_eq!(cb, SpotifyCallback::new(Some("c".to_string()), None, "s".to_string()));
}

#[test]
fn first_occurrence_of_a_key_is_taken() {
    let cb = SpotifyCallback::from_str("https://x/cb?state=one&code=a&state=two&code=b").unwrap();
    assert_eq!(cb, SpotifyCallback::new(Some("a".to_string()), None, "one".to_string()));
}

#[test]
fn query_values_are_percent_decoded() {
    let cb = SpotifyCallback::from_str("https://x/cb?code=a%20b&state=s%2Ft").unwrap();
    assert_eq!(cb, SpotifyCallback::new(Some("a b".to_string()), None, "s/t".to_string()));
}

#[test]
fn from_query_pairs_reads_pairs_directly() {
    let pairs = vec![
        ("state".to_string(), "sN".to_string()),
        ("error".to_string(), "access_denied".to_string()),
    ];
    let cb = SpotifyCallback::from_query_pairs(&pairs).unwrap();
    assert_eq!(
        cb,
        SpotifyCallback::new(None, Some("access_denied".to_string()), "sN".to_string())
    );
    let empty: Vec<(String, String)> = vec![];
    assert_eq!(
        SpotifyCallback::from_query_pairs(&empty).unwrap_err().to_string(),
        "Callback URL parsing failure: missing both state and response parameters"
    );
}
