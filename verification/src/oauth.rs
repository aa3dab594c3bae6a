//! The OAuth handshake controller: initiating a login (PKCE pair, CSRF
//! `state`, authorize URL) and completing the callback (parameter checks,
//! single-use state consumption, code exchange, profile fetch, persisting
//! the identity and its session).  The transport performs the two HTTP
//! calls and reports their outcomes; every decision is made here.

use vstd::prelude::*;
use vstd::string::StringSliceAdditionalSpecFns;
use base64::Engine;

verus! {

/// A pending login expires ten minutes after it was initiated.
pub const STATE_TTL_MS: u64 = 600_000;

/// A session expires seven days after it was created.
pub const SESSION_TTL_MS: u64 = 604_800_000;

// ---------------------------------------------------------------------------
// HTTP Basic credentials
// ---------------------------------------------------------------------------

/// The standard (padded) base64 encoding of `bs`.
pub uninterp spec fn base64_of(bs: Seq<u8>) -> Seq<char>;

/// Relies on base64's `STANDARD` engine: the encoding is a function of the
/// input bytes alone.  (`encode` only panics when the output length
/// overflows `usize`, which no real `&str` - at most `isize::MAX` bytes -
/// can cause.)
#[verifier::external_body]
fn base64_standard(s: &str) -> (r: String)
    ensures
        r@ == base64_of(s.spec_bytes()),
{
    base64::engine::general_purpose::STANDARD.encode(s.as_bytes())
}

/// The value of the `Authorization` header for HTTP Basic client
/// authentication.
pub open spec fn basic_auth_spec(client_id: Seq<char>, client_secret: Seq<char>) -> Seq<char> {
    "Basic "@ + base64_of(vstd::utf8::encode_utf8(client_id + ":"@ + client_secret))
}

/// Build the HTTP Basic `Authorization` value for `client_id:client_secret`.
pub fn basic_auth_header(client_id: &str, client_secret: &str) -> (r: String)
    ensures
        r@ == basic_auth_spec(client_id@, client_secret@),
{
    let mut creds = String::new();
    creds.append(client_id);
    creds.append(":");
    creds.append(client_secret);
    let encoded = base64_standard(creds.as_str());
    let mut r = String::new();
    r.append("Basic ");
    r.append(encoded.as_str());
    proof {
        assert(creds@ =~= client_id@ + ":"@ + client_secret@);
        assert(r@ =~= basic_auth_spec(client_id@, client_secret@));
    }
    r
}

// ---------------------------------------------------------------------------
// The two provider requests
// ---------------------------------------------------------------------------

/// A form-encoded POST to the provider's token endpoint, described as plain
/// values for the transport to send.
#[derive(Debug)]
pub struct TokenRequest {
    pub url: String,
    pub authorization: String,
    pub params: Vec<(String, String)>,
}

fn pair(k: &str, v: &str) -> (r: (String, String))
    ensures
        r.0@ == k@,
        r.1@ == v@,
{
    (k.to_owned(), v.to_owned())
}

/// Describe the authorization-code exchange: `grant_type=authorization_code`
/// with the code, redirect URI, client id and PKCE verifier, under HTTP
/// Basic client authentication.
pub fn build_token_request(
    client_id: &str,
    client_secret: &str,
    code: &str,
    redirect_uri: &str,
    code_verifier: &str,
) -> (r: TokenRequest)
    ensures
        r.url@ == "https://accounts.spotify.com/api/token"@,
        r.authorization@ == basic_auth_spec(client_id@, client_secret@),
        r.params@.len() == 5,
        r.params@[0].0@ == "grant_type"@ && r.params@[0].1@ == "authorization_code"@,
        r.params@[1].0@ == "code"@ && r.params@[1].1@ == code@,
        r.params@[2].0@ == "redirect_uri"@ && r.params@[2].1@ == redirect_uri@,
        r.params@[3].0@ == "client_id"@ && r.params@[3].1@ == client_id@,
        r.params@[4].0@ == "code_verifier"@ && r.params@[4].1@ == code_verifier@,
{
    let mut params: Vec<(String, String)> = Vec::new();
    params.push(pair("grant_type", "authorization_code"));
    params.push(pair("code", code));
    params.push(pair("redirect_uri", redirect_uri));
    params.push(pair("client_id", client_id));
    params.push(pair("code_verifier", code_verifier));
    TokenRequest {
        url: "https://accounts.spotify.com/api/token".to_owned(),
        authorization: basic_auth_header(client_id, client_secret),
        params,
    }
}

/// Describe the refresh exchange: `grant_type=refresh_token` with the
/// refresh token, under HTTP Basic client authentication.
pub fn build_refresh_request(client_id: &str, client_secret: &str, refresh_token: &str) -> (r:
    TokenRequest)
    ensures
        r.url@ == "https://accounts.spotify.com/api/token"@,
        r.authorization@ == basic_auth_spec(client_id@, client_secret@),
        r.params@.len() == 2,
        r.params@[0].0@ == "grant_type"@ && r.params@[0].1@ == "refresh_token"@,
        r.params@[1].0@ == "refresh_token"@ && r.params@[1].1@ == refresh_token@,
{
    let mut params: Vec<(String, String)> = Vec::new();
    params.push(pair("grant_type", "refresh_token"));
    params.push(pair("refresh_token", refresh_token));
    TokenRequest {
        url: "https://accounts.spotify.com/api/token".to_owned(),
        authorization: basic_auth_header(client_id, client_secret),
        params,
    }
}

// ---------------------------------------------------------------------------
// Callback decisions
// ---------------------------------------------------------------------------

/// How the callback can fail; each failure redirects to its own error page.
#[derive(PartialEq, Eq, Structural, Clone, Copy, Debug)]
pub enum CallbackError {
    /// The callback carried no `code` parameter.
    MissingCode,
    /// The callback carried no `state` parameter.
    MissingState,
    /// The `state` was never stored, already consumed, or expired: the CSRF
    /// defense rejects the callback before any token exchange.
    StateMismatch,
    /// The token endpoint answered 2xx with an unreadable body.
    TokenParseFailed,
    /// The token endpoint answered with a non-2xx status.
    TokenRequestFailed,
    /// The token exchange could not be carried over the network.
    NetworkError,
    /// The profile fetch after the exchange failed.
    ProfileFetchFailed,
}

/// The redirect target for a callback failure.
pub fn error_redirect(e: &CallbackError) -> (r: String)
    ensures
        e is MissingCode ==> r@ == "/login?error=missing_code"@,
        e is MissingState ==> r@ == "/login?error=missing_state"@,
        e is StateMismatch ==> r@ == "/login?error=state_mismatch"@,
        e is TokenParseFailed ==> r@ == "/login?error=token_parse_failed"@,
        e is TokenRequestFailed ==> r@ == "/login?error=token_request_failed"@,
        e is NetworkError ==> r@ == "/login?error=network_error"@,
        e is ProfileFetchFailed ==> r@ == "/login?error=profile_fetch_failed"@,
{
    match e {
        CallbackError::MissingCode => "/login?error=missing_code".to_owned(),
        CallbackError::MissingState => "/login?error=missing_state".to_owned(),
        CallbackError::StateMismatch => "/login?error=state_mismatch".to_owned(),
        CallbackError::TokenParseFailed => "/login?error=token_parse_failed".to_owned(),
        CallbackError::TokenRequestFailed => "/login?error=token_request_failed".to_owned(),
        CallbackError::NetworkError => "/login?error=network_error".to_owned(),
        CallbackError::ProfileFetchFailed => "/login?error=profile_fetch_failed".to_owned(),
    }
}

/// The callback redirects home on success.
pub fn home_redirect() -> (r: String)
    ensures
        r@ == "/"@,
{
    "/".to_owned()
}

/// Both `code` and `state` must be present; the absence of either is
/// terminal, `code` being checked first.
pub fn callback_params(code: Option<String>, state: Option<String>) -> (r: Result<
    (String, String),
    CallbackError,
>)
    ensures
        match code {
            None => r == Err::<(String, String), CallbackError>(CallbackError::MissingCode),
            Some(c) => match state {
                None => r == Err::<(String, String), CallbackError>(CallbackError::MissingState),
                Some(s) => r == Ok::<(String, String), CallbackError>((c, s)),
            },
        },
{
    match code {
        None => Err(CallbackError::MissingCode),
        Some(c) => match state {
            None => Err(CallbackError::MissingState),
            Some(s) => Ok((c, s)),
        },
    }
}

/// What the transport reports back for one upstream call.
pub enum UpstreamOutcome<T> {
    /// The request could not be carried at all.
    Network,
    /// The upstream answered with a non-2xx status.
    BadStatus(u16),
    /// The upstream answered 2xx but the body did not parse.
    BadBody,
    /// The upstream answered 2xx with this parsed body.
    Good(T),
}

/// Look the verifier up for the received `state` and remove it atomically;
/// absence - never stored, already consumed, or expired - is a terminal
/// state mismatch, enforced before any token exchange.
pub fn consume_state(store: &mut crate::store::StateStore, state: &str, now: u64) -> (r: Result<
    String,
    CallbackError,
>)
    requires
        old(store).wf(),
    ensures
        final(store).wf(),
        !final(store).contains_state(state@),
        final(store).frames_others(*old(store), state@),
        match r {
            Ok(v) => old(store).consume_outcome(state@, now) == Some(v@),
            Err(e) => e == CallbackError::StateMismatch && old(store).consume_outcome(state@, now)
                is None,
        },
{
    match store.consume(state, now) {
        Some(v) => Ok(v),
        None => Err(CallbackError::StateMismatch),
    }
}

/// Classify the token exchange's outcome: transport failure, non-2xx and
/// unreadable bodies are each their own terminal error.
pub fn token_stage(o: UpstreamOutcome<crate::models::SpotifyTokenResponse>) -> (r: Result<
    crate::models::SpotifyTokenResponse,
    CallbackError,
>)
    ensures
        match o {
            UpstreamOutcome::Good(t) => r == Ok::<
                crate::models::SpotifyTokenResponse,
                CallbackError,
            >(t),
            UpstreamOutcome::BadStatus(_) => r matches Err(e) && e == CallbackError::TokenRequestFailed,
            UpstreamOutcome::BadBody => r matches Err(e) && e == CallbackError::TokenParseFailed,
            UpstreamOutcome::Network => r matches Err(e) && e == CallbackError::NetworkError,
        },
{
    match o {
        UpstreamOutcome::Good(t) => Ok(t),
        UpstreamOutcome::BadStatus(_) => Err(CallbackError::TokenRequestFailed),
        UpstreamOutcome::BadBody => Err(CallbackError::TokenParseFailed),
        UpstreamOutcome::Network => Err(CallbackError::NetworkError),
    }
}

/// Classify the profile fetch's outcome: any failure after the exchange is
/// the same terminal error.
pub fn profile_stage(o: UpstreamOutcome<crate::models::SpotifyUserProfile>) -> (r: Result<
    crate::models::SpotifyUserProfile,
    CallbackError,
>)
    ensures
        match o {
            UpstreamOutcome::Good(p) => r == Ok::<
                crate::models::SpotifyUserProfile,
                CallbackError,
            >(p),
            _ => r matches Err(e) && e == CallbackError::ProfileFetchFailed,
        },
{
    match o {
        UpstreamOutcome::Good(p) => Ok(p),
        _ => Err(CallbackError::ProfileFetchFailed),
    }
}

/// Persist a successful login: find-or-create the identity under the
/// provider's user id with the fresh tokens, and create its session with
/// the session TTL.
pub fn persist_login(
    users: &mut crate::users::UserStore,
    sessions: &mut crate::sessions::SessionStore,
    profile: crate::models::SpotifyUserProfile,
    tokens: crate::models::SpotifyTokenResponse,
    session_id: String,
    now: u64,
) -> (r: String)
    requires
        old(users).wf(),
        old(sessions).wf(),
        now + SESSION_TTL_MS <= u64::MAX,
    ensures
        final(users).wf(),
        final(sessions).wf(),
        final(users).contains_user(profile.id@),
        final(users).display_of(profile.id@) == profile.display_name@,
        final(users).access_of(profile.id@) == tokens.access_token@,
        final(users).refresh_of(profile.id@) == crate::users::refresh_view(tokens.refresh_token),
        final(users).frames_others(*old(users), profile.id@),
        final(sessions).contains_session(session_id@),
        final(sessions).user_of(session_id@) == profile.id@,
        final(sessions).expiry_of(session_id@) == now + SESSION_TTL_MS,
        final(sessions).frames_others(*old(sessions), session_id@),
        r@ == profile.id@,
{
    let user_id = crate::text::clone_string(&profile.id);
    users.upsert_user(profile.id, profile.display_name, tokens.access_token, tokens.refresh_token);
    let owner = crate::text::clone_string(&user_id);
    sessions.create(session_id, owner, now + SESSION_TTL_MS);
    user_id
}

// ---------------------------------------------------------------------------
// The session cookie
// ---------------------------------------------------------------------------

/// The attributes of the session cookie the callback sets.
pub struct CookieSpec {
    pub name: String,
    pub value: String,
    pub path: String,
    pub secure: bool,
    pub http_only: bool,
    pub same_site_lax: bool,
}

/// A fresh opaque session identifier: 32 random alphanumeric characters.
pub fn new_session_id() -> (r: String)
    ensures
        r@.len() == 32,
        crate::text::all_alphanumeric(r@),
{
    crate::rng::random_alphanumeric(32)
}

/// The session cookie: named `sid`, HTTP-only, `SameSite=Lax`, secure, for
/// the whole site.
pub fn session_cookie(session_id: String) -> (r: CookieSpec)
    ensures
        r.name@ == "sid"@,
        r.value@ == session_id@,
        r.path@ == "/"@,
        r.secure,
        r.http_only,
        r.same_site_lax,
{
    CookieSpec {
        name: "sid".to_owned(),
        value: session_id,
        path: "/".to_owned(),
        secure: true,
        http_only: true,
        same_site_lax: true,
    }
}

// ---------------------------------------------------------------------------
// Initiating a login
// ---------------------------------------------------------------------------

/// What the login endpoint answers: the CSRF `state` of this attempt and
/// the provider URL to redirect the user agent to.
pub struct LoginRedirect {
    pub state: String,
    pub url: String,
}

/// Initiate a login: generate the PKCE pair and a random 16-character
/// `state`, store the verifier under the `state` with the ten-minute TTL,
/// and build the provider's authorize URL carrying the challenge.
pub fn initiate_login(
    store: &mut crate::store::StateStore,
    client_id: &str,
    redirect_uri: &str,
    scope: &str,
    now: u64,
) -> (r: LoginRedirect)
    requires
        old(store).wf(),
        now + STATE_TTL_MS <= u64::MAX,
    ensures
        final(store).wf(),
        r.state@.len() == 16,
        crate::text::all_alphanumeric(r.state@),
        final(store).contains_state(r.state@),
        final(store).expiry_of(r.state@) == now + STATE_TTL_MS,
        final(store).verifier_of(r.state@).len() == 128,
        crate::text::all_alphanumeric(final(store).verifier_of(r.state@)),
        r.url@ == crate::urls::authorize_url_spec(
            client_id@,
            scope@,
            redirect_uri@,
            r.state@,
            crate::pkce::code_challenge_of(final(store).verifier_of(r.state@)),
        ),
        final(store).frames_others(*old(store), r.state@),
{
    let verifier = crate::pkce::generate_code_verifier();
    let challenge = crate::pkce::generate_code_challenge(verifier.as_str());
    let state = crate::rng::random_alphanumeric(16);
    let url = crate::urls::build_authorize_url(
        client_id,
        scope,
        redirect_uri,
        state.as_str(),
        challenge.as_str(),
    );
    let state_copy = crate::text::clone_string(&state);
    store.insert(state_copy, verifier, now, STATE_TTL_MS);
    LoginRedirect { state, url }
}

} // verus!
