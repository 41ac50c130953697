use spotify_oauth::{join_scopes, SpotifyError, SpotifyScope};

const ALL: [SpotifyScope; 18] = [
    SpotifyScope::UserReadRecentlyPlayed,
    SpotifyScope::UserTopRead,
    SpotifyScope::UserLibraryModify,
    SpotifyScope::UserLibraryRead,
    SpotifyScope::PlaylistReadPrivate,
    SpotifyScope::PlaylistModifyPublic,
    SpotifyScope::PlaylistModifyPrivate,
    SpotifyScope::PlaylistReadCollaborative,
    SpotifyScope::UserReadEmail,
    SpotifyScope::UserReadBirthDate,
    SpotifyScope::UserReadPrivate,
    SpotifyScope::UserReadPlaybackState,
    SpotifyScope::UserModifyPlaybackState,
    SpotifyScope::UserReadCurrentlyPlaying,
    SpotifyScope::AppRemoteControl,
    SpotifyScope::Streaming,
    SpotifyScope::UserFollowRead,
    SpotifyScope::UserFollowModify,
];

#[test]
fn every_scope_round_trips_through_its_text() {
    for s in ALL {
        assert_eq!(SpotifyScope::from_str(&s.to_string()).unwrap(), s);
        assert_eq!(SpotifyScope::from_str(s.as_str()).unwrap(), s);
    }
}

#[test]
fn scope_texts() {
    assert_eq!(SpotifyScope::Streaming.to_string(), "streaming");
    assert_eq!(SpotifyScope::UserReadEmail.as_str(), "user-read-email");
    assert_eq!(SpotifyScope::UserReadBirthDate.as_str(), "user-read-birthdate");
    assert_eq!(SpotifyScope::from_str("streaming").unwrap(), SpotifyScope::Streaming);
}

#[test]
fn unknown_scope_is_refused_with_its_text() {
    match SpotifyScope::from_str("Streaming") {
        Err(SpotifyError::ScopeFailure { token }) => assert_eq!(token, "Streaming"),
        other => panic!("unexpected {:?}", other),
    }
    assert!(SpotifyScope::from_str("").is_err());
    assert_eq!(
        SpotifyScope::from_str("bogus").unwrap_err().to_string(),
        "Unknown scope: bogus"
    );
}

#[test]
fn join_examples() {
    assert_eq!(join_scopes(&vec![]), "");
    assert_eq!(join_scopes(&vec![SpotifyScope::Streaming]), "streaming");
    assert_eq!(
        join_scopes(&vec![SpotifyScope::UserReadEmail, SpotifyScope::Streaming]),
        "user-read-email streaming"
    );
    assert_eq!(
        join_scopes(&vec![SpotifyScope::Streaming, SpotifyScope::Streaming]),
        "streaming streaming"
    );
}
