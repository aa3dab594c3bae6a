use betterd_spotify::auth::{
    apply_refresh_outcome, check_auth, get_valid_access_token, logout, optional_user,
    refresh_request_for, session_id_from_cookie_header, should_refresh_and_retry,
    user_context_for, AuthError, AuthenticatedUser, TokenRefreshResponse, UserContext,
};
use betterd_spotify::oauth::UpstreamOutcome;
use betterd_spotify::sessions::SessionStore;
use betterd_spotify::users::UserStore;

fn seeded_stores() -> (SessionStore, UserStore) {
    let mut sessions = SessionStore::new();
    let mut users = UserStore::new();
    users.upsert_user(
        "user-1".to_string(),
        "User One".to_string(),
        "access-1".to_string(),
        Some("refresh-1".to_string()),
    );
    sessions.create("sess-1".to_string(), "user-1".to_string(), 100_000);
    (sessions, users)
}

#[test]
fn cookie_header_parsing_finds_sid() {
    assert_eq!(session_id_from_cookie_header("sid=abc"), Some("abc".to_string()));
    assert_eq!(session_id_from_cookie_header("foo=1; sid=abc; bar=2"), Some("abc".to_string()));
    assert_eq!(session_id_from_cookie_header("foo=1;  sid=xyz"), Some("xyz".to_string()));
    assert_eq!(session_id_from_cookie_header("foo=1; bar=2"), None);
    assert_eq!(session_id_from_cookie_header(""), None);
    // A cookie merely containing "sid" elsewhere does not match.
    assert_eq!(session_id_from_cookie_header("mysid=abc"), None);
}

#[test]
fn session_lookup_honours_expiry() {
    let (sessions, _) = seeded_stores();
    assert_eq!(sessions.lookup("sess-1", 99_999), Some("user-1".to_string()));
    assert_eq!(sessions.lookup("sess-1", 100_000), None);
    assert_eq!(sessions.lookup("sess-2", 0), None);
}

#[test]
fn authentication_resolves_through_cookie_session_and_user() {
    let (sessions, users) = seeded_stores();
    assert!(check_auth(Some("sid=sess-1"), &sessions, &users, 1_000));
    assert!(!check_auth(Some("sid=sess-1"), &sessions, &users, 200_000));
    assert!(!check_auth(Some("sid=other"), &sessions, &users, 1_000));
    assert!(!check_auth(None, &sessions, &users, 1_000));

    let token = get_valid_access_token(Some("sid=sess-1"), &sessions, &users, 1_000).unwrap();
    assert_eq!(token, "access-1");
    assert_eq!(
        get_valid_access_token(None, &sessions, &users, 1_000).unwrap_err(),
        AuthError::AuthenticationRequired
    );
}

#[test]
fn logout_removes_every_session_of_the_user() {
    let (mut sessions, users) = seeded_stores();
    sessions.create("sess-extra".to_string(), "user-1".to_string(), 100_000);
    sessions.create("sess-other".to_string(), "user-2".to_string(), 100_000);
    assert_eq!(sessions.len(), 3);

    let did = logout(Some("sid=sess-1"), &mut sessions, &users, 1_000);
    assert!(did);
    // Both of user-1's sessions are gone; the other user's stays.
    assert_eq!(sessions.lookup("sess-1", 1_000), None);
    assert_eq!(sessions.lookup("sess-extra", 1_000), None);
    assert_eq!(sessions.lookup("sess-other", 1_000), Some("user-2".to_string()));
}

#[test]
fn logout_without_session_changes_nothing() {
    let (mut sessions, users) = seeded_stores();
    let did = logout(Some("sid=bogus"), &mut sessions, &users, 1_000);
    assert!(!did);
    assert_eq!(sessions.len(), 1);
}

#[test]
fn refresh_needs_a_refresh_token() {
    let without = AuthenticatedUser {
        spotify_id: "user-1".to_string(),
        access_token: "a".to_string(),
        refresh_token: None,
    };
    assert_eq!(
        refresh_request_for(&without, "cid", "cs").unwrap_err(),
        AuthError::NoRefreshToken
    );
    let with = AuthenticatedUser {
        spotify_id: "user-1".to_string(),
        access_token: "a".to_string(),
        refresh_token: Some("refresh-1".to_string()),
    };
    let req = refresh_request_for(&with, "cid", "cs").unwrap();
    assert_eq!(req.params[1].1, "refresh-1");
}

#[test]
fn refresh_rotates_only_when_a_new_token_came() {
    let (_, mut users) = seeded_stores();
    let user = AuthenticatedUser {
        spotify_id: "user-1".to_string(),
        access_token: "access-1".to_string(),
        refresh_token: Some("refresh-1".to_string()),
    };

    // The provider returned no new refresh token: the old one is kept.
    let updated = apply_refresh_outcome(
        &mut users,
        &user,
        UpstreamOutcome::Good(TokenRefreshResponse {
            access_token: "access-2".to_string(),
            refresh_token: None,
        }),
    )
    .unwrap();
    assert_eq!(updated.access_token, "access-2");
    assert_eq!(updated.refresh_token.as_deref(), Some("refresh-1"));
    assert_eq!(users.get_access_token("user-1"), Some("access-2".to_string()));
    assert_eq!(users.get_refresh_token("user-1"), Some("refresh-1".to_string()));

    // The provider rotated the refresh token: the new one is stored.
    let updated = apply_refresh_outcome(
        &mut users,
        &updated,
        UpstreamOutcome::Good(TokenRefreshResponse {
            access_token: "access-3".to_string(),
            refresh_token: Some("refresh-2".to_string()),
        }),
    )
    .unwrap();
    assert_eq!(updated.refresh_token.as_deref(), Some("refresh-2"));
    assert_eq!(users.get_refresh_token("user-1"), Some("refresh-2".to_string()));
}

#[test]
fn refresh_failures_leave_the_store_alone() {
    let (_, mut users) = seeded_stores();
    let user = AuthenticatedUser {
        spotify_id: "user-1".to_string(),
        access_token: "access-1".to_string(),
        refresh_token: Some("refresh-1".to_string()),
    };
    assert_eq!(
        apply_refresh_outcome(&mut users, &user, UpstreamOutcome::BadStatus(400)).unwrap_err(),
        AuthError::RefreshFailed(400)
    );
    assert_eq!(
        apply_refresh_outcome(&mut users, &user, UpstreamOutcome::Network).unwrap_err(),
        AuthError::NetworkError
    );
    assert_eq!(
        apply_refresh_outcome(&mut users, &user, UpstreamOutcome::BadBody).unwrap_err(),
        AuthError::RefreshParseFailed
    );
    assert_eq!(users.get_access_token("user-1"), Some("access-1".to_string()));
}

#[test]
fn unauthorized_triggers_exactly_one_retry() {
    assert!(should_refresh_and_retry(401, false));
    assert!(!should_refresh_and_retry(401, true));
    assert!(!should_refresh_and_retry(500, false));
    assert!(!should_refresh_and_retry(200, false));
}

#[test]
fn user_context_reads_and_writes_tokens() {
    let (_, mut users) = seeded_stores();
    let ctx = UserContext { spotify_id: "user-1".to_string() };
    assert_eq!(ctx.get_access_token(&users).unwrap(), "access-1");
    assert_eq!(ctx.get_refresh_token(&users).unwrap(), "refresh-1");
    ctx.update_access_token(&mut users, "access-9".to_string());
    assert_eq!(ctx.get_access_token(&users).unwrap(), "access-9");
    assert_eq!(ctx.get_refresh_token(&users).unwrap(), "refresh-1");

    let ghost_ctx = UserContext { spotify_id: "nobody".to_string() };
    assert_eq!(ghost_ctx.get_access_token(&users).unwrap_err(), AuthError::UserNotFound);
    // Writing for an unknown identity matches no record.
    ghost_ctx.update_access_token(&mut users, "x".to_string());
    assert_eq!(ghost_ctx.get_access_token(&users).unwrap_err(), AuthError::UserNotFound);

    let mut users2 = UserStore::new();
    users2.upsert_user("bare".to_string(), "Bare".to_string(), "a".to_string(), None);
    let bare_ctx = UserContext { spotify_id: "bare".to_string() };
    assert_eq!(bare_ctx.get_refresh_token(&users2).unwrap_err(), AuthError::NoRefreshToken);
}

#[test]
fn middleware_extractors_resolve_or_redirect() {
    let (sessions, _) = seeded_stores();
    let ok = user_context_for(Some("sid=sess-1"), &sessions, 1_000).unwrap();
    assert_eq!(ok.spotify_id, "user-1");
    assert_eq!(
        user_context_for(None, &sessions, 1_000).unwrap_err(),
        "/login?reason=no_session"
    );
    assert_eq!(
        user_context_for(Some("foo=1"), &sessions, 1_000).unwrap_err(),
        "/login?reason=no_session"
    );
    assert_eq!(
        user_context_for(Some("sid=sess-1"), &sessions, 200_000).unwrap_err(),
        "/login?reason=invalid_session"
    );

    assert_eq!(optional_user(Some("sid=sess-1"), &sessions, 1_000).0, Some("user-1".to_string()));
    assert_eq!(optional_user(Some("sid=sess-1"), &sessions, 200_000).0, None);
    assert_eq!(optional_user(None, &sessions, 1_000).0, None);
}
