//! Resolving the caller: reading the session cookie out of the `Cookie`
//! header, mapping it through the session layer to an identity, and the
//! token-refresh guard that exchanges the refresh token when the access
//! token has stopped working.

use vstd::prelude::*;

verus! {

// ---------------------------------------------------------------------------
// The session cookie in the Cookie header
// ---------------------------------------------------------------------------

/// `s` without its leading spaces.
pub open spec fn trim_leading(s: Seq<char>) -> Seq<char>
    decreases s.len(),
{
    if s.len() > 0 && s[0] == ' ' {
        trim_leading(s.drop_first())
    } else {
        s
    }
}

/// `s` without its trailing spaces.
pub open spec fn trim_trailing(s: Seq<char>) -> Seq<char>
    decreases s.len(),
{
    if s.len() > 0 && s.last() == ' ' {
        trim_trailing(s.drop_last())
    } else {
        s
    }
}

/// `s` without leading or trailing spaces.
pub open spec fn trim_spaces(s: Seq<char>) -> Seq<char> {
    trim_trailing(trim_leading(s))
}

/// Whether a trimmed cookie segment names the session cookie.
pub open spec fn has_sid_prefix(s: Seq<char>) -> bool {
    s.len() >= 4 && s.subrange(0, 4) == "sid="@
}

/// The session identifier carried by the `Cookie` header: the value of the
/// first `;`-separated segment that, trimmed, starts with `sid=`.
pub open spec fn cookie_sid(h: Seq<char>) -> Option<Seq<char>>
    decreases h.len(),
{
    let seg_end = crate::urls::first_index_at(h, ';', 0);
    if seg_end < 0 || seg_end > h.len() {
        None
    } else {
        let seg = trim_spaces(h.subrange(0, seg_end));
        if has_sid_prefix(seg) {
            Some(seg.subrange(4, seg.len() as int))
        } else if seg_end >= h.len() {
            None
        } else {
            cookie_sid(h.subrange(seg_end + 1, h.len() as int))
        }
    }
}

fn trim_leading_exec(s: &str) -> (r: &str)
    ensures
        r@ == trim_leading(s@),
    decreases s@.len(),
{
    let n = s.unicode_len();
    if n > 0 && s.get_char(0) == ' ' {
        trim_leading_exec(s.substring_char(1, n))
    } else {
        s
    }
}

fn trim_trailing_exec(s: &str) -> (r: &str)
    ensures
        r@ == trim_trailing(s@),
    decreases s@.len(),
{
    let n = s.unicode_len();
    if n > 0 && s.get_char(n - 1) == ' ' {
        trim_trailing_exec(s.substring_char(0, n - 1))
    } else {
        s
    }
}

fn trim_spaces_exec(s: &str) -> (r: &str)
    ensures
        r@ == trim_spaces(s@),
{
    trim_trailing_exec(trim_leading_exec(s))
}

/// Extract the session identifier from a `Cookie` header, if one is there.
pub fn session_id_from_cookie_header(h: &str) -> (r: Option<String>)
    ensures
        match r {
            Some(v) => cookie_sid(h@) == Some(v@),
            None => cookie_sid(h@) is None,
        },
    decreases h@.len(),
{
    let hlen = h.unicode_len();
    let seg_end = crate::urls::find_char(h, ';');
    proof {
        crate::urls::lemma_first_index_at(h@, ';', 0);
    }
    let seg = trim_spaces_exec(h.substring_char(0, seg_end));
    let seg_len = seg.unicode_len();
    let is_sid = seg_len >= 4 && crate::urls::str_eq(seg.substring_char(0, 4), "sid=");
    if is_sid {
        Some(seg.substring_char(4, seg_len).to_owned())
    } else if seg_end >= hlen {
        None
    } else {
        session_id_from_cookie_header(h.substring_char(seg_end + 1, hlen))
    }
}

// ---------------------------------------------------------------------------
// The current user
// ---------------------------------------------------------------------------

/// The authenticated caller: the identity and the tokens it owns.
#[derive(Debug)]
pub struct AuthenticatedUser {
    pub spotify_id: String,
    pub access_token: String,
    pub refresh_token: Option<String>,
}

/// How authentication and the refresh guard can fail.
#[derive(PartialEq, Eq, Structural, Clone, Copy, Debug)]
pub enum AuthError {
    /// No valid session authenticates the caller.
    AuthenticationRequired,
    /// The identity owns no refresh token, so no refresh can be attempted.
    NoRefreshToken,
    /// The refresh endpoint answered with this non-2xx status.
    RefreshFailed(u16),
    /// The refresh endpoint answered 2xx with an unreadable body.
    RefreshParseFailed,
    /// The refresh exchange could not be carried over the network.
    NetworkError,
    /// The identity named by the session is not stored.
    UserNotFound,
}

/// The identity the `Cookie` header authenticates at time `now`: its `sid`
/// cookie, looked up among the live sessions.
pub open spec fn resolved_user_id(
    h: Option<Seq<char>>,
    sessions: crate::sessions::SessionStore,
    now: u64,
) -> Option<Seq<char>> {
    match h {
        None => None,
        Some(hs) => match cookie_sid(hs) {
            None => None,
            Some(sid) => sessions.lookup_outcome(sid, now),
        },
    }
}

/// The view of an optional header.
pub open spec fn header_view(h: Option<&str>) -> Option<Seq<char>> {
    match h {
        Some(s) => Some(s@),
        None => None,
    }
}

/// Resolve the caller: the session cookie, the session it names, and the
/// identity's stored record.  Anything missing or expired answers nothing.
pub fn get_current_user(
    cookie_header: Option<&str>,
    sessions: &crate::sessions::SessionStore,
    users: &crate::users::UserStore,
    now: u64,
) -> (r: Option<AuthenticatedUser>)
    requires
        sessions.wf(),
        users.wf(),
    ensures
        match resolved_user_id(header_view(cookie_header), *sessions, now) {
            None => r is None,
            Some(uid) => {
                if users.contains_user(uid) {
                    r matches Some(u) && u.spotify_id@ == uid && u.access_token@
                        == users.access_of(uid) && crate::users::refresh_view(u.refresh_token)
                        == users.refresh_of(uid)
                } else {
                    r is None
                }
            },
        },
{
    let h = match cookie_header {
        Some(h) => h,
        None => {
            return None;
        },
    };
    let sid = match session_id_from_cookie_header(h) {
        Some(sid) => sid,
        None => {
            return None;
        },
    };
    let uid = match sessions.lookup(sid.as_str(), now) {
        Some(uid) => uid,
        None => {
            return None;
        },
    };
    let access_token = match users.get_access_token(uid.as_str()) {
        Some(t) => t,
        None => {
            return None;
        },
    };
    let refresh_token = users.get_refresh_token(uid.as_str());
    Some(AuthenticatedUser { spotify_id: uid, access_token, refresh_token })
}

/// Resolve the caller or fail: the authenticated user, or the error every
/// protected endpoint answers with.
pub fn require_auth(
    cookie_header: Option<&str>,
    sessions: &crate::sessions::SessionStore,
    users: &crate::users::UserStore,
    now: u64,
) -> (r: Result<AuthenticatedUser, AuthError>)
    requires
        sessions.wf(),
        users.wf(),
    ensures
        match resolved_user_id(header_view(cookie_header), *sessions, now) {
            None => r == Err::<AuthenticatedUser, AuthError>(AuthError::AuthenticationRequired),
            Some(uid) => {
                if users.contains_user(uid) {
                    r matches Ok(u) && u.spotify_id@ == uid && u.access_token@ == users.access_of(
                        uid,
                    ) && crate::users::refresh_view(u.refresh_token) == users.refresh_of(uid)
                } else {
                    r == Err::<AuthenticatedUser, AuthError>(AuthError::AuthenticationRequired)
                }
            },
        },
{
    match get_current_user(cookie_header, sessions, users, now) {
        Some(u) => Ok(u),
        None => Err(AuthError::AuthenticationRequired),
    }
}

/// Resolve the caller or fail; the contract is `require_auth`'s.
pub fn require_auth_with_refresh(
    cookie_header: Option<&str>,
    sessions: &crate::sessions::SessionStore,
    users: &crate::users::UserStore,
    now: u64,
) -> (r: Result<AuthenticatedUser, AuthError>)
    requires
        sessions.wf(),
        users.wf(),
    ensures
        match resolved_user_id(header_view(cookie_header), *sessions, now) {
            None => r == Err::<AuthenticatedUser, AuthError>(AuthError::AuthenticationRequired),
            Some(uid) => {
                if users.contains_user(uid) {
                    r matches Ok(u) && u.spotify_id@ == uid && u.access_token@ == users.access_of(
                        uid,
                    ) && crate::users::refresh_view(u.refresh_token) == users.refresh_of(uid)
                } else {
                    r == Err::<AuthenticatedUser, AuthError>(AuthError::AuthenticationRequired)
                }
            },
        },
{
    require_auth(cookie_header, sessions, users, now)
}

/// The caller's access token, when a valid session authenticates one.
pub fn get_valid_access_token(
    cookie_header: Option<&str>,
    sessions: &crate::sessions::SessionStore,
    users: &crate::users::UserStore,
    now: u64,
) -> (r: Result<String, AuthError>)
    requires
        sessions.wf(),
        users.wf(),
    ensures
        match resolved_user_id(header_view(cookie_header), *sessions, now) {
            None => r == Err::<String, AuthError>(AuthError::AuthenticationRequired),
            Some(uid) => {
                if users.contains_user(uid) {
                    r matches Ok(t) && t@ == users.access_of(uid)
                } else {
                    r == Err::<String, AuthError>(AuthError::AuthenticationRequired)
                }
            },
        },
{
    match require_auth(cookie_header, sessions, users, now) {
        Ok(u) => Ok(u.access_token),
        Err(e) => Err(e),
    }
}

/// The free `get_access_token` endpoint: the caller's access token.
pub fn get_access_token(
    cookie_header: Option<&str>,
    sessions: &crate::sessions::SessionStore,
    users: &crate::users::UserStore,
    now: u64,
) -> (r: Result<String, AuthError>)
    requires
        sessions.wf(),
        users.wf(),
    ensures
        match resolved_user_id(header_view(cookie_header), *sessions, now) {
            None => r == Err::<String, AuthError>(AuthError::AuthenticationRequired),
            Some(uid) => {
                if users.contains_user(uid) {
                    r matches Ok(t) && t@ == users.access_of(uid)
                } else {
                    r == Err::<String, AuthError>(AuthError::AuthenticationRequired)
                }
            },
        },
{
    get_valid_access_token(cookie_header, sessions, users, now)
}

/// Whether a caller is authenticated at all.
pub fn check_auth(
    cookie_header: Option<&str>,
    sessions: &crate::sessions::SessionStore,
    users: &crate::users::UserStore,
    now: u64,
) -> (r: bool)
    requires
        sessions.wf(),
        users.wf(),
    ensures
        r == (match resolved_user_id(header_view(cookie_header), *sessions, now) {
            None => false,
            Some(uid) => users.contains_user(uid),
        }),
{
    match get_current_user(cookie_header, sessions, users, now) {
        Some(_) => true,
        None => false,
    }
}

/// Log the caller out: every session of the authenticated identity is
/// deleted; an unauthenticated call changes nothing.
pub fn logout(
    cookie_header: Option<&str>,
    sessions: &mut crate::sessions::SessionStore,
    users: &crate::users::UserStore,
    now: u64,
) -> (r: bool)
    requires
        old(sessions).wf(),
        users.wf(),
    ensures
        final(sessions).wf(),
        match resolved_user_id(header_view(cookie_header), *old(sessions), now) {
            None => *final(sessions) == *old(sessions) && !r,
            Some(uid) => {
                if users.contains_user(uid) {
                    r && forall|sid: Seq<char>|
                        #[trigger] final(sessions).contains_session(sid) == (old(
                            sessions,
                        ).contains_session(sid) && old(sessions).user_of(sid) != uid)
                } else {
                    *final(sessions) == *old(sessions) && !r
                }
            },
        },
{
    let user = get_current_user(cookie_header, &*sessions, users, now);
    match user {
        Some(u) => {
            sessions.remove_user_sessions(u.spotify_id.as_str());
            true
        },
        None => false,
    }
}

// ---------------------------------------------------------------------------
// The token-refresh guard
// ---------------------------------------------------------------------------

/// What the provider's refresh endpoint answers on success.
#[derive(Debug)]
pub struct TokenRefreshResponse {
    pub access_token: String,
    pub refresh_token: Option<String>,
}

/// Describe the refresh exchange for this caller, or fail when the identity
/// owns no refresh token.
pub fn refresh_request_for(
    user: &AuthenticatedUser,
    client_id: &str,
    client_secret: &str,
) -> (r: Result<crate::oauth::TokenRequest, AuthError>)
    ensures
        match user.refresh_token {
            None => r matches Err(e) && e == AuthError::NoRefreshToken,
            Some(rt) => r matches Ok(req) && {
                &&& req.url@ == "https://accounts.spotify.com/api/token"@
                &&& req.authorization@ == crate::oauth::basic_auth_spec(
                    client_id@,
                    client_secret@,
                )
                &&& req.params@.len() == 2
                &&& req.params@[0].0@ == "grant_type"@ && req.params@[0].1@ == "refresh_token"@
                &&& req.params@[1].0@ == "refresh_token"@ && req.params@[1].1@ == rt@
            },
        },
{
    match &user.refresh_token {
        None => Err(AuthError::NoRefreshToken),
        Some(rt) => Ok(crate::oauth::build_refresh_request(client_id, client_secret, rt.as_str())),
    }
}

/// Fold the refresh exchange's outcome in: on success the new access token
/// is persisted for the identity, the refresh token rotates only when the
/// provider returned a new one, and the updated user is handed back; each
/// failure is terminal for this refresh.
pub fn apply_refresh_outcome(
    users: &mut crate::users::UserStore,
    user: &AuthenticatedUser,
    outcome: crate::oauth::UpstreamOutcome<TokenRefreshResponse>,
) -> (r: Result<AuthenticatedUser, AuthError>)
    requires
        old(users).wf(),
    ensures
        final(users).wf(),
        final(users).frames_others(*old(users), user.spotify_id@),
        match outcome {
            crate::oauth::UpstreamOutcome::Network => r == Err::<AuthenticatedUser, AuthError>(
                AuthError::NetworkError,
            ) && *final(users) == *old(users),
            crate::oauth::UpstreamOutcome::BadStatus(st) => r == Err::<
                AuthenticatedUser,
                AuthError,
            >(AuthError::RefreshFailed(st)) && *final(users) == *old(users),
            crate::oauth::UpstreamOutcome::BadBody => r == Err::<AuthenticatedUser, AuthError>(
                AuthError::RefreshParseFailed,
            ) && *final(users) == *old(users),
            crate::oauth::UpstreamOutcome::Good(tr) => {
                &&& final(users).contains_user(user.spotify_id@) == old(users).contains_user(
                    user.spotify_id@,
                )
                &&& (old(users).contains_user(user.spotify_id@) ==> final(users).access_of(
                    user.spotify_id@,
                ) == tr.access_token@ && final(users).refresh_of(user.spotify_id@) == (
                match tr.refresh_token {
                    Some(t) => Some(t@),
                    None => old(users).refresh_of(user.spotify_id@),
                }))
                &&& r matches Ok(u2) && u2.spotify_id@ == user.spotify_id@ && u2.access_token@
                    == tr.access_token@ && crate::users::refresh_view(u2.refresh_token) == (
                match tr.refresh_token {
                    Some(t) => Some(t@),
                    None => crate::users::refresh_view(user.refresh_token),
                })
            },
        },
{
    match outcome {
        crate::oauth::UpstreamOutcome::Network => Err(AuthError::NetworkError),
        crate::oauth::UpstreamOutcome::BadStatus(st) => Err(AuthError::RefreshFailed(st)),
        crate::oauth::UpstreamOutcome::BadBody => Err(AuthError::RefreshParseFailed),
        crate::oauth::UpstreamOutcome::Good(tr) => {
            let rotated: Option<String> = match &tr.refresh_token {
                Some(t) => Some(crate::text::clone_string(t)),
                None => match &user.refresh_token {
                    Some(t) => Some(crate::text::clone_string(t)),
                    None => None,
                },
            };
            let new_access = crate::text::clone_string(&tr.access_token);
            users.apply_refresh(user.spotify_id.as_str(), tr.access_token, tr.refresh_token);
            Ok(
                AuthenticatedUser {
                    spotify_id: crate::text::clone_string(&user.spotify_id),
                    access_token: new_access,
                    refresh_token: rotated,
                },
            )
        },
    }
}

/// The single-retry rule of the guard: an unauthorized answer triggers a
/// refresh-and-retry exactly once, never an unbounded loop.
pub fn should_refresh_and_retry(status: u16, already_retried: bool) -> (r: bool)
    ensures
        r == (status == 401 && !already_retried),
{
    status == 401 && !already_retried
}

// ---------------------------------------------------------------------------
// Request middleware
// ---------------------------------------------------------------------------

/// The context of the logged-in caller, as protected handlers extract it.
#[derive(Debug)]
pub struct UserContext {
    pub spotify_id: String,
}

impl UserContext {
    /// The caller's stored access token.
    pub fn get_access_token(&self, users: &crate::users::UserStore) -> (r: Result<
        String,
        AuthError,
    >)
        requires
            users.wf(),
        ensures
            match r {
                Ok(t) => users.contains_user(self.spotify_id@) && t@ == users.access_of(
                    self.spotify_id@,
                ),
                Err(e) => e == AuthError::UserNotFound && !users.contains_user(self.spotify_id@),
            },
    {
        match users.get_access_token(self.spotify_id.as_str()) {
            Some(t) => Ok(t),
            None => Err(AuthError::UserNotFound),
        }
    }

    /// The caller's stored refresh token.
    pub fn get_refresh_token(&self, users: &crate::users::UserStore) -> (r: Result<
        String,
        AuthError,
    >)
        requires
            users.wf(),
        ensures
            match r {
                Ok(t) => users.contains_user(self.spotify_id@) && users.refresh_of(self.spotify_id@)
                    == Some(t@),
                Err(e) => {
                    ||| e == AuthError::UserNotFound && !users.contains_user(self.spotify_id@)
                    ||| e == AuthError::NoRefreshToken && users.contains_user(self.spotify_id@)
                        && users.refresh_of(self.spotify_id@) is None
                },
            },
    {
        match users.find_refresh(self.spotify_id.as_str()) {
            Ok(t) => Ok(t),
            Err(absent) => {
                if absent {
                    Err(AuthError::UserNotFound)
                } else {
                    Err(AuthError::NoRefreshToken)
                }
            },
        }
    }

    /// Overwrite the caller's stored access token; an unknown identity is
    /// left untouched, as a write that matches no row.
    pub fn update_access_token(&self, users: &mut crate::users::UserStore, new_token: String)
        requires
            old(users).wf(),
        ensures
            final(users).wf(),
            final(users).contains_user(self.spotify_id@) == old(users).contains_user(
                self.spotify_id@,
            ),
            old(users).contains_user(self.spotify_id@) ==> final(users).access_of(self.spotify_id@)
                == new_token@ && final(users).display_of(self.spotify_id@) == old(users).display_of(
                self.spotify_id@,
            ) && final(users).refresh_of(self.spotify_id@) == old(users).refresh_of(
                self.spotify_id@,
            ),
            final(users).frames_others(*old(users), self.spotify_id@),
    {
        users.update_access_token(self.spotify_id.as_str(), new_token);
    }
}

/// Build the caller's context from the request's cookie header, or name the
/// redirect the rejected request answers with.
pub fn user_context_for(
    cookie_header: Option<&str>,
    sessions: &crate::sessions::SessionStore,
    now: u64,
) -> (r: Result<UserContext, String>)
    requires
        sessions.wf(),
    ensures
        match cookie_header {
            None => r matches Err(t) && t@ == "/login?reason=no_session"@,
            Some(h) => match cookie_sid(h@) {
                None => r matches Err(t) && t@ == "/login?reason=no_session"@,
                Some(sid) => match sessions.lookup_outcome(sid, now) {
                    None => r matches Err(t) && t@ == "/login?reason=invalid_session"@,
                    Some(uid) => r matches Ok(c) && c.spotify_id@ == uid,
                },
            },
        },
{
    let h = match cookie_header {
        Some(h) => h,
        None => {
            return Err("/login?reason=no_session".to_owned());
        },
    };
    let sid = match session_id_from_cookie_header(h) {
        Some(sid) => sid,
        None => {
            return Err("/login?reason=no_session".to_owned());
        },
    };
    match sessions.lookup(sid.as_str(), now) {
        Some(uid) => Ok(UserContext { spotify_id: uid }),
        None => Err("/login?reason=invalid_session".to_owned()),
    }
}

/// The caller's identity when one is authenticated, with no rejection: the
/// optional counterpart of `user_context_for`.
pub struct OptionalUser(pub Option<String>);

/// Resolve the caller without rejecting: anything missing or expired is
/// simply nobody.
pub fn optional_user(
    cookie_header: Option<&str>,
    sessions: &crate::sessions::SessionStore,
    now: u64,
) -> (r: OptionalUser)
    requires
        sessions.wf(),
    ensures
        match resolved_user_id(header_view(cookie_header), *sessions, now) {
            None => r.0 is None,
            Some(uid) => r.0 matches Some(u) && u@ == uid,
        },
{
    let h = match cookie_header {
        Some(h) => h,
        None => {
            return OptionalUser(None);
        },
    };
    let sid = match session_id_from_cookie_header(h) {
        Some(sid) => sid,
        None => {
            return OptionalUser(None);
        },
    };
    OptionalUser(sessions.lookup(sid.as_str(), now))
}

} // verus!
