use vstd::prelude::*;

use crate::error::SpotifyError;
use crate::text::text_eq;

verus! {

/// A permission scope of the Spotify Web API.
#[derive(Debug, Clone, Copy, PartialEq, Eq, Structural)]
pub enum SpotifyScope {
    UserReadRecentlyPlayed,
    UserTopRead,
    UserLibraryModify,
    UserLibraryRead,
    PlaylistReadPrivate,
    PlaylistModifyPublic,
    PlaylistModifyPrivate,
    PlaylistReadCollaborative,
    UserReadEmail,
    UserReadBirthDate,
    UserReadPrivate,
    UserReadPlaybackState,
    UserModifyPlaybackState,
    UserReadCurrentlyPlaying,
    AppRemoteControl,
    Streaming,
    UserFollowRead,
    UserFollowModify,
}

/// The canonical text of a scope: lower case words joined by hyphens.
pub open spec fn scope_text(s: SpotifyScope) -> Seq<char> {
    match s {
        SpotifyScope::UserReadRecentlyPlayed => "user-read-recently-played"@,
        SpotifyScope::UserTopRead => "user-top-read"@,
        SpotifyScope::UserLibraryModify => "user-library-modify"@,
        SpotifyScope::UserLibraryRead => "user-library-read"@,
        SpotifyScope::PlaylistReadPrivate => "playlist-read-private"@,
        SpotifyScope::PlaylistModifyPublic => "playlist-modify-public"@,
        SpotifyScope::PlaylistModifyPrivate => "playlist-modify-private"@,
        SpotifyScope::PlaylistReadCollaborative => "playlist-read-collaborative"@,
        SpotifyScope::UserReadEmail => "user-read-email"@,
        SpotifyScope::UserReadBirthDate => "user-read-birthdate"@,
        SpotifyScope::UserReadPrivate => "user-read-private"@,
        SpotifyScope::UserReadPlaybackState => "user-read-playback-state"@,
        SpotifyScope::UserModifyPlaybackState => "user-modify-playback-state"@,
        SpotifyScope::UserReadCurrentlyPlaying => "user-read-currently-playing"@,
        SpotifyScope::AppRemoteControl => "app-remote-control"@,
        SpotifyScope::Streaming => "streaming"@,
        SpotifyScope::UserFollowRead => "user-follow-read"@,
        SpotifyScope::UserFollowModify => "user-follow-modify"@,
    }
}

/// The scope whose text is `t`, if there is one.
pub open spec fn scope_of_text(t: Seq<char>) -> Option<SpotifyScope> {
    if exists|s: SpotifyScope| scope_text(s) == t {
        Some(choose|s: SpotifyScope| scope_text(s) == t)
    } else {
        None
    }
}

/// Two scopes with the same text are the same scope.
pub proof fn lemma_scope_text_injective(a: SpotifyScope, b: SpotifyScope)
    ensures
        scope_text(a) == scope_text(b) ==> a == b,
{
    reveal_strlit("user-read-recently-played");
    reveal_strlit("user-top-read");
    reveal_strlit("user-library-modify");
    reveal_strlit("user-library-read");
    reveal_strlit("playlist-read-private");
    reveal_strlit("playlist-modify-public");
    reveal_strlit("playlist-modify-private");
    reveal_strlit("playlist-read-collaborative");
    reveal_strlit("user-read-email");
    reveal_strlit("user-read-birthdate");
    reveal_strlit("user-read-private");
    reveal_strlit("user-read-playback-state");
    reveal_strlit("user-modify-playback-state");
    reveal_strlit("user-read-currently-playing");
    reveal_strlit("app-remote-control");
    reveal_strlit("streaming");
    reveal_strlit("user-follow-read");
    reveal_strlit("user-follow-modify");
    if scope_text(a) == scope_text(b) {
        assert(scope_text(a).len() == scope_text(b).len());
        assert(scope_text(a)[0] == scope_text(b)[0]);
        assert(scope_text(a)[5] == scope_text(b)[5]);
    }
}

/// Scopes in the order given, each by its text, separated by single spaces.
pub open spec fn joined_text(s: Seq<SpotifyScope>) -> Seq<char>
    decreases s.len(),
{
    if s.len() == 0 {
        Seq::empty()
    } else if s.len() == 1 {
        scope_text(s[0])
    } else {
        joined_text(s.drop_last()) + seq![' '] + scope_text(s.last())
    }
}

pub open spec fn is_scope_failure(e: SpotifyError, token: Seq<char>) -> bool {
    match e {
        SpotifyError::ScopeFailure { token: t } => t@ == token,
        _ => false,
    }
}

impl SpotifyScope {
    /// The canonical text of the scope.
    pub fn as_str(&self) -> (r: &'static str)
        ensures
            r@ == scope_text(*self),
    {
        match self {
            SpotifyScope::UserReadRecentlyPlayed => "user-read-recently-played",
            SpotifyScope::UserTopRead => "user-top-read",
            SpotifyScope::UserLibraryModify => "user-library-modify",
            SpotifyScope::UserLibraryRead => "user-library-read",
            SpotifyScope::PlaylistReadPrivate => "playlist-read-private",
            SpotifyScope::PlaylistModifyPublic => "playlist-modify-public",
            SpotifyScope::PlaylistModifyPrivate => "playlist-modify-private",
            SpotifyScope::PlaylistReadCollaborative => "playlist-read-collaborative",
            SpotifyScope::UserReadEmail => "user-read-email",
            SpotifyScope::UserReadBirthDate => "user-read-birthdate",
            SpotifyScope::UserReadPrivate => "user-read-private",
            SpotifyScope::UserReadPlaybackState => "user-read-playback-state",
            SpotifyScope::UserModifyPlaybackState => "user-modify-playback-state",
            SpotifyScope::UserReadCurrentlyPlaying => "user-read-currently-playing",
            SpotifyScope::AppRemoteControl => "app-remote-control",
            SpotifyScope::Streaming => "streaming",
            SpotifyScope::UserFollowRead => "user-follow-read",
            SpotifyScope::UserFollowModify => "user-follow-modify",
        }
    }

    /// The canonical text of the scope, as an owned string.
    pub fn to_string(&self) -> (r: String)
        ensures
            r@ == scope_text(*self),
    {
        String::from_str(self.as_str())
    }

    /// Reads a scope from its canonical text; the match is exact and case-sensitive.
    pub fn from_str(text: &str) -> (r: Result<SpotifyScope, SpotifyError>)
        ensures
            r is Ok <==> scope_of_text(text@) is Some,
            r matches Ok(s) ==> scope_text(s) == text@ && scope_of_text(text@) == Some(s),
            r matches Err(e) ==> is_scope_failure(e, text@),
    {
        if text_eq(text, SpotifyScope::UserReadRecentlyPlayed.as_str()) {
            proof { lemma_scope_round_trip(SpotifyScope::UserReadRecentlyPlayed); }
            return Ok(SpotifyScope::UserReadRecentlyPlayed);
        }
        if text_eq(text, SpotifyScope::UserTopRead.as_str()) {
            proof { lemma_scope_round_trip(SpotifyScope::UserTopRead); }
            return Ok(SpotifyScope::UserTopRead);
        }
        if text_eq(text, SpotifyScope::UserLibraryModify.as_str()) {
            proof { lemma_scope_round_trip(SpotifyScope::UserLibraryModify); }
            return Ok(SpotifyScope::UserLibraryModify);
        }
        if text_eq(text, SpotifyScope::UserLibraryRead.as_str()) {
            proof { lemma_scope_round_trip(SpotifyScope::UserLibraryRead); }
            return Ok(SpotifyScope::UserLibraryRead);
        }
        if text_eq(text, SpotifyScope::PlaylistReadPrivate.as_str()) {
            proof { lemma_scope_round_trip(SpotifyScope::PlaylistReadPrivate); }
            return Ok(SpotifyScope::PlaylistReadPrivate);
        }
        if text_eq(text, SpotifyScope::PlaylistModifyPublic.as_str()) {
            proof { lemma_scope_round_trip(SpotifyScope::PlaylistModifyPublic); }
            return Ok(SpotifyScope::PlaylistModifyPublic);
        }
        if text_eq(text, SpotifyScope::PlaylistModifyPrivate.as_str()) {
            proof { lemma_scope_round_trip(SpotifyScope::PlaylistModifyPrivate); }
            return Ok(SpotifyScope::PlaylistModifyPrivate);
        }
        if text_eq(text, SpotifyScope::PlaylistReadCollaborative.as_str()) {
            proof { lemma_scope_round_trip(SpotifyScope::PlaylistReadCollaborative); }
            return Ok(SpotifyScope::PlaylistReadCollaborative);
        }
        if text_eq(text, SpotifyScope::UserReadEmail.as_str()) {
            proof { lemma_scope_round_trip(SpotifyScope::UserReadEmail); }
            return Ok(SpotifyScope::UserReadEmail);
        }
        if text_eq(text, SpotifyScope::UserReadBirthDate.as_str()) {
            proof { lemma_scope_round_trip(SpotifyScope::UserReadBirthDate); }
            return Ok(SpotifyScope::UserReadBirthDate);
        }
        if text_eq(text, SpotifyScope::UserReadPrivate.as_str()) {
            proof { lemma_scope_round_trip(SpotifyScope::UserReadPrivate); }
            return Ok(SpotifyScope::UserReadPrivate);
        }
        if text_eq(text, SpotifyScope::UserReadPlaybackState.as_str()) {
            proof { lemma_scope_round_trip(SpotifyScope::UserReadPlaybackState); }
            return Ok(SpotifyScope::UserReadPlaybackState);
        }
        if text_eq(text, SpotifyScope::UserModifyPlaybackState.as_str()) {
            proof { lemma_scope_round_trip(SpotifyScope::UserModifyPlaybackState); }
            return Ok(SpotifyScope::UserModifyPlaybackState);
        }
        if text_eq(text, SpotifyScope::UserReadCurrentlyPlaying.as_str()) {
            proof { lemma_scope_round_trip(SpotifyScope::UserReadCurrentlyPlaying); }
            return Ok(SpotifyScope::UserReadCurrentlyPlaying);
        }
        if text_eq(text, SpotifyScope::AppRemoteControl.as_str()) {
            proof { lemma_scope_round_trip(SpotifyScope::AppRemoteControl); }
            return Ok(SpotifyScope::AppRemoteControl);
        }
        if text_eq(text, SpotifyScope::Streaming.as_str()) {
            proof { lemma_scope_round_trip(SpotifyScope::Streaming); }
            return Ok(SpotifyScope::Streaming);
        }
        if text_eq(text, SpotifyScope::UserFollowRead.as_str()) {
            proof { lemma_scope_round_trip(SpotifyScope::UserFollowRead); }
            return Ok(SpotifyScope::UserFollowRead);
        }
        if text_eq(text, SpotifyScope::UserFollowModify.as_str()) {
            proof { lemma_scope_round_trip(SpotifyScope::UserFollowModify); }
            return Ok(SpotifyScope::UserFollowModify);
        }
        Err(SpotifyError::ScopeFailure { token: String::from_str(text) })
    }
}

/// Every scope's text is read back as that same scope, so `from_str`
/// accepts the text of each scope and returns that scope.
pub proof fn lemma_scope_round_trip(s: SpotifyScope)
    ensures
        scope_of_text(scope_text(s)) == Some(s),
{
    let c = choose|c: SpotifyScope| scope_text(c) == scope_text(s);
    lemma_scope_text_injective(c, s);
}

/// Joins the texts of the scopes with single spaces, keeping their order.
pub fn join_scopes(scopes: &Vec<SpotifyScope>) -> (r: String)
    ensures
        r@ == joined_text(scopes@),
{
    let mut out = String::new();
    let mut i: usize = 0;
    assert(scopes@.subrange(0, 0) =~= Seq::<SpotifyScope>::empty());
    while i < scopes.len()
        invariant
            i <= scopes@.len(),
            out@ == joined_text(scopes@.subrange(0, i as int)),
        decreases scopes@.len() - i,
    {
        let ghost before = scopes@.subrange(0, i as int);
        if i > 0 {
            out.append(" ");
        }
        out.append(scopes[i].as_str());
        proof {
            reveal_strlit(" ");
            let after = scopes@.subrange(0, i + 1);
            assert(after.drop_last() =~= before);
            assert(after.last() == scopes@[i as int]);
            if i == 0 {
                assert(out@ =~= scope_text(scopes@[0]));
            } else {
                assert(out@ =~= joined_text(before) + seq![' '] + scope_text(after.last()));
            }
        }
        i = i + 1;
    }
    assert(scopes@.subrange(0, scopes@.len() as int) =~= scopes@);
    out
}

} // verus!
