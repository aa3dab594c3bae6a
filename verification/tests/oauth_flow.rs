use betterd_spotify::auth::{get_current_user, require_auth, AuthError};
use betterd_spotify::config::{config_from, ConfigError};
use betterd_spotify::models::{SpotifyTokenResponse, SpotifyUserProfile};
use betterd_spotify::oauth::{
    basic_auth_header, build_refresh_request, build_token_request, callback_params, consume_state,
    error_redirect, home_redirect, initiate_login, persist_login, profile_stage, session_cookie,
    token_stage, CallbackError, UpstreamOutcome, SESSION_TTL_MS, STATE_TTL_MS,
};
use betterd_spotify::sessions::SessionStore;
use betterd_spotify::store::StateStore;
use betterd_spotify::users::UserStore;

fn profile(id: &str, name: &str) -> SpotifyUserProfile {
    SpotifyUserProfile { display_name: name.to_string(), id: id.to_string(), images: None }
}

fn tokens(access: &str, refresh: Option<&str>) -> SpotifyTokenResponse {
    SpotifyTokenResponse {
        access_token: access.to_string(),
        token_type: "Bearer".to_string(),
        scope: "playlist-read-private".to_string(),
        expires_in: 3600,
        refresh_token: refresh.map(|s| s.to_string()),
    }
}

#[test]
fn basic_auth_matches_rfc7617_example() {
    assert_eq!(
        basic_auth_header("Aladdin", "open sesame"),
        "Basic QWxhZGRpbjpvcGVuIHNlc2FtZQ=="
    );
}

#[test]
fn token_request_carries_the_exchange_form() {
    let r = build_token_request("cid", "SECRET-REDACTED", "authcode", "https://app/cb", "verif");
    assert_eq!(r.url, "https://accounts.spotify.com/api/token");
    assert_eq!(r.authorization, basic_auth_header("cid", "SECRET-REDACTED"));
    let p: Vec<(&str, &str)> = r.params.iter().map(|(k, v)| (k.as_str(), v.as_str())).collect();
    assert_eq!(
        p,
        vec![
            ("grant_type", "authorization_code"),
            ("code", "authcode"),
            ("redirect_uri", "https://app/cb"),
            ("client_id", "cid"),
            ("code_verifier", "verif"),
        ]
    );
}

#[test]
fn refresh_request_carries_the_refresh_form() {
    let r = build_refresh_request("cid", "SECRET-REDACTED", "rtok");
    assert_eq!(r.url, "https://accounts.spotify.com/api/token");
    let p: Vec<(&str, &str)> = r.params.iter().map(|(k, v)| (k.as_str(), v.as_str())).collect();
    assert_eq!(p, vec![("grant_type", "refresh_token"), ("refresh_token", "rtok")]);
}

#[test]
fn missing_parameters_are_terminal() {
    assert_eq!(
        callback_params(None, Some("s".to_string())).unwrap_err(),
        CallbackError::MissingCode
    );
    assert_eq!(
        callback_params(Some("c".to_string()), None).unwrap_err(),
        CallbackError::MissingState
    );
    let ok = callback_params(Some("c".to_string()), Some("s".to_string())).unwrap();
    assert_eq!(ok, ("c".to_string(), "s".to_string()));
}

#[test]
fn exchange_outcomes_map_to_their_errors() {
    assert_eq!(
        token_stage(UpstreamOutcome::Network).unwrap_err(),
        CallbackError::NetworkError
    );
    assert_eq!(
        token_stage(UpstreamOutcome::BadStatus(400)).unwrap_err(),
        CallbackError::TokenRequestFailed
    );
    assert_eq!(
        token_stage(UpstreamOutcome::BadBody).unwrap_err(),
        CallbackError::TokenParseFailed
    );
    let t = token_stage(UpstreamOutcome::Good(tokens("at", None))).unwrap();
    assert_eq!(t.access_token, "at");

    assert_eq!(
        profile_stage(UpstreamOutcome::Network).unwrap_err(),
        CallbackError::ProfileFetchFailed
    );
    assert_eq!(
        profile_stage(UpstreamOutcome::BadStatus(500)).unwrap_err(),
        CallbackError::ProfileFetchFailed
    );
    let p = profile_stage(UpstreamOutcome::Good(profile("u1", "User"))).unwrap();
    assert_eq!(p.id, "u1");
}

#[test]
fn error_redirects_name_their_reason() {
    assert_eq!(error_redirect(&CallbackError::MissingCode), "/login?error=missing_code");
    assert_eq!(error_redirect(&CallbackError::MissingState), "/login?error=missing_state");
    assert_eq!(error_redirect(&CallbackError::StateMismatch), "/login?error=state_mismatch");
    assert_eq!(
        error_redirect(&CallbackError::TokenParseFailed),
        "/login?error=token_parse_failed"
    );
    assert_eq!(
        error_redirect(&CallbackError::TokenRequestFailed),
        "/login?error=token_request_failed"
    );
    assert_eq!(error_redirect(&CallbackError::NetworkError), "/login?error=network_error");
    assert_eq!(
        error_redirect(&CallbackError::ProfileFetchFailed),
        "/login?error=profile_fetch_failed"
    );
    assert_eq!(home_redirect(), "/");
}

#[test]
fn login_redirect_carries_state_and_challenge() {
    let mut store = StateStore::new();
    let r = initiate_login(&mut store, "cid", "https://app/cb", "scope-a scope-b", 1_000);
    assert_eq!(r.state.chars().count(), 16);
    assert!(r.state.chars().all(|c| c.is_ascii_alphanumeric()));
    assert!(r.url.starts_with(
        "https://accounts.spotify.com/authorize?response_type=code&client_id=cid"
    ));
    assert!(r.url.contains(&format!("&state={}", r.state)));
    assert!(r.url.contains("&code_challenge_method=S256&code_challenge="));
    // The verifier is stored under the state, ready for the callback.
    let v = store.consume(r.state.as_str(), 2_000).unwrap();
    assert_eq!(v.chars().count(), 128);
}

#[test]
fn state_ttl_is_ten_minutes_and_session_ttl_seven_days() {
    assert_eq!(STATE_TTL_MS, 10 * 60 * 1000);
    assert_eq!(SESSION_TTL_MS, 7 * 24 * 60 * 60 * 1000);
}

#[test]
fn full_login_succeeds_with_matching_state() {
    let mut states = StateStore::new();
    let mut users = UserStore::new();
    let mut sessions = SessionStore::new();
    let now: u64 = 50_000;

    // Initiate: the redirect stores the verifier under the state.
    let login = initiate_login(&mut states, "cid", "https://app/cb", "scope", now);

    // The provider redirects back with code and the same state.
    let (code, state) =
        callback_params(Some("code-1".to_string()), Some(login.state.clone())).unwrap();
    assert_eq!(code, "code-1");

    // CSRF defense: the state matches, handing the verifier back once.
    let verifier = consume_state(&mut states, state.as_str(), now + 1_000).unwrap();
    assert_eq!(verifier.chars().count(), 128);

    // The exchange and the profile fetch succeed.
    let t = token_stage(UpstreamOutcome::Good(tokens("access-1", Some("refresh-1")))).unwrap();
    let p = profile_stage(UpstreamOutcome::Good(profile("user-9", "A User"))).unwrap();

    // Persist the identity and its session; the cookie carries the session.
    let uid = persist_login(&mut users, &mut sessions, p, t, "sess-abc".to_string(), now + 1_000);
    assert_eq!(uid, "user-9");
    let cookie = session_cookie("sess-abc".to_string());
    assert_eq!(cookie.name, "sid");
    assert_eq!(cookie.value, "sess-abc");
    assert_eq!(cookie.path, "/");
    assert!(cookie.http_only);
    assert!(cookie.same_site_lax);

    // A later request with the cookie is authenticated.
    let header = format!("{}={}", cookie.name, cookie.value);
    let user = get_current_user(Some(header.as_str()), &sessions, &users, now + 2_000).unwrap();
    assert_eq!(user.spotify_id, "user-9");
    assert_eq!(user.access_token, "access-1");
    assert_eq!(user.refresh_token.as_deref(), Some("refresh-1"));
}

#[test]
fn mismatched_state_sets_no_session() {
    let mut states = StateStore::new();
    let users = UserStore::new();
    let sessions = SessionStore::new();
    let now: u64 = 50_000;

    let _login = initiate_login(&mut states, "cid", "https://app/cb", "scope", now);

    // The callback arrives with a state that was never issued.
    let e = consume_state(&mut states, "forged-state", now + 1).unwrap_err();
    assert_eq!(e, CallbackError::StateMismatch);
    assert_eq!(error_redirect(&e), "/login?error=state_mismatch");

    // No session was created; a request with any cookie stays anonymous.
    assert_eq!(sessions.len(), 0);
    let r = require_auth(Some("sid=anything"), &sessions, &users, now + 2);
    assert_eq!(r.unwrap_err(), AuthError::AuthenticationRequired);
}

#[test]
fn config_requires_every_value() {
    let some = |s: &str| Some(s.to_string());
    assert_eq!(
        config_from(None, some("s"), some("r"), some("d")).unwrap_err(),
        ConfigError::MissingClientId
    );
    assert_eq!(
        config_from(some("c"), None, some("r"), some("d")).unwrap_err(),
        ConfigError::MissingClientSecret
    );
    assert_eq!(
        config_from(some("c"), some("s"), None, some("d")).unwrap_err(),
        ConfigError::MissingRedirectUri
    );
    assert_eq!(
        config_from(some("c"), some("s"), some("r"), None).unwrap_err(),
        ConfigError::MissingStoreUrl
    );
    let c = config_from(some("c"), some("s"), some("r"), some("d")).unwrap();
    assert_eq!(c.client_id, "c");
    assert_eq!(c.store_url, "d");
}

#[test]
fn session_ids_are_opaque_random_tokens() {
    let a = betterd_spotify::oauth::new_session_id();
    let b = betterd_spotify::oauth::new_session_id();
    assert_eq!(a.chars().count(), 32);
    assert!(a.chars().all(|c| c.is_ascii_alphanumeric()));
    assert_ne!(a, b);
}
