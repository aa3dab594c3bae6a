//! The session layer: an opaque session identifier (the only thing placed in
//! the browser cookie) maps to an authenticated identity until it expires or
//! is invalidated by logout.

use vstd::prelude::*;

verus! {

/// One live session: the cookie token, the identity it belongs to, and when
/// it stops being honoured.
pub struct Session {
    pub session_id: String,
    pub user_id: String,
    pub expires_at: u64,
}

/// The store of live sessions, keyed by their unique session identifiers.
pub struct SessionStore {
    entries: Vec<Session>,
}

/// Whether some session of `entries` is keyed by `sid`.
pub open spec fn sessions_contain(entries: Seq<Session>, sid: Seq<char>) -> bool {
    exists|i: int| 0 <= i < entries.len() && (#[trigger] entries[i]).session_id@ == sid
}

/// The index of the session of `entries` keyed by `sid`.
pub open spec fn session_idx(entries: Seq<Session>, sid: Seq<char>) -> int {
    choose|i: int| 0 <= i < entries.len() && (#[trigger] entries[i]).session_id@ == sid
}

impl SessionStore {
    /// Each session identifier names at most one session.
    pub closed spec fn wf(self) -> bool {
        forall|i: int, j: int|
            0 <= i < j < self.entries@.len() ==> (#[trigger] self.entries@[i]).session_id@ != (
            #[trigger] self.entries@[j]).session_id@
    }

    pub closed spec fn contains_session(self, sid: Seq<char>) -> bool {
        sessions_contain(self.entries@, sid)
    }

    pub closed spec fn idx_of(self, sid: Seq<char>) -> int {
        session_idx(self.entries@, sid)
    }

    pub closed spec fn user_of(self, sid: Seq<char>) -> Seq<char> {
        self.entries@[self.idx_of(sid)].user_id@
    }

    pub closed spec fn expiry_of(self, sid: Seq<char>) -> u64 {
        self.entries@[self.idx_of(sid)].expires_at
    }

    pub closed spec fn len_spec(self) -> nat {
        self.entries@.len()
    }

    /// What looking `sid` up at time `now` answers: the identity it belongs
    /// to, provided the session exists and has not expired.
    pub open spec fn lookup_outcome(self, sid: Seq<char>, now: u64) -> Option<Seq<char>> {
        if self.contains_session(sid) && now < self.expiry_of(sid) {
            Some(self.user_of(sid))
        } else {
            None
        }
    }

    /// Every session other than `except` keeps exactly the entry it had in
    /// `pre`.
    pub open spec fn frames_others(self, pre: SessionStore, except: Seq<char>) -> bool {
        &&& forall|sid: Seq<char>|
            sid != except ==> #[trigger] self.contains_session(sid) == pre.contains_session(sid)
        &&& forall|sid: Seq<char>|
            sid != except && pre.contains_session(sid) ==> #[trigger] self.user_of(sid)
                == pre.user_of(sid) && self.expiry_of(sid) == pre.expiry_of(sid)
    }

    proof fn lemma_lookup_unique(self, sid: Seq<char>, i: int)
        requires
            self.wf(),
            0 <= i < self.entries@.len(),
            self.entries@[i].session_id@ == sid,
        ensures
            self.contains_session(sid),
            self.idx_of(sid) == i,
    {
        assert(self.contains_session(sid));
        let j = self.idx_of(sid);
        assert(0 <= j < self.entries@.len() && self.entries@[j].session_id@ == sid);
        if i != j {
            assert(self.entries@[i].session_id@ != self.entries@[j].session_id@);
        }
    }

    pub fn new() -> (r: Self)
        ensures
            r.wf(),
            r.len_spec() == 0,
            forall|sid: Seq<char>| !r.contains_session(sid),
    {
        SessionStore { entries: Vec::new() }
    }

    fn find_index(&self, sid: &str) -> (r: Option<usize>)
        ensures
            match r {
                Some(i) => i < self.entries@.len() && self.entries@[i as int].session_id@ == sid@,
                None => !self.contains_session(sid@),
            },
    {
        let mut i: usize = 0;
        while i < self.entries.len()
            invariant
                0 <= i <= self.entries@.len(),
                forall|j: int| 0 <= j < i ==> (#[trigger] self.entries@[j]).session_id@ != sid@,
            decreases self.entries@.len() - i,
        {
            if crate::urls::str_eq(self.entries[i].session_id.as_str(), sid) {
                return Some(i);
            }
            i = i + 1;
        }
        None
    }

    /// Record a session under `session_id`.  Any earlier session under the
    /// same identifier is replaced.
    pub fn create(&mut self, session_id: String, user_id: String, expires_at: u64)
        requires
            old(self).wf(),
        ensures
            final(self).wf(),
            final(self).contains_session(session_id@),
            final(self).user_of(session_id@) == user_id@,
            final(self).expiry_of(session_id@) == expires_at,
            final(self).frames_others(*old(self), session_id@),
    {
        self.remove_session(session_id.as_str());
        let ghost mid = *self;
        let ghost sid_view = session_id@;
        let entry = Session { session_id, user_id, expires_at };
        self.entries.push(entry);
        proof {
            let n = mid.entries@.len() as int;
            assert(self.entries@ == mid.entries@.push(entry));
            assert(forall|k: int| 0 <= k < n ==> #[trigger] self.entries@[k] == mid.entries@[k]);
            assert(self.entries@[n] == entry);
            assert forall|a: int, b: int| 0 <= a < b < self.entries@.len() implies (
            #[trigger] self.entries@[a]).session_id@ != (#[trigger] self.entries@[b]).session_id@ by {
                if b == n {
                    assert(!mid.contains_session(sid_view));
                    assert(mid.entries@[a].session_id@ != sid_view);
                }
            }
            self.lemma_lookup_unique(sid_view, n);
            assert forall|sid: Seq<char>| sid != sid_view implies #[trigger] self.contains_session(
                sid,
            ) == old(self).contains_session(sid) by {
                assert(self.entries@[n].session_id@ != sid);
                self.lemma_frame_after_push(mid.entries@, sid);
                assert(self.contains_session(sid) == sessions_contain(mid.entries@, sid));
                assert(mid.contains_session(sid) == old(self).contains_session(sid));
            }
            assert forall|sid: Seq<char>|
                sid != sid_view && old(self).contains_session(sid) implies #[trigger] self.user_of(
                sid,
            ) == old(self).user_of(sid) && self.expiry_of(sid) == old(self).expiry_of(sid) by {
                assert(self.entries@[n].session_id@ != sid);
                self.lemma_frame_after_push(mid.entries@, sid);
                assert(mid.contains_session(sid) == old(self).contains_session(sid));
                assert(mid.contains_session(sid));
                assert(self.contains_session(sid));
                assert(self.entries@[self.idx_of(sid)] == mid.entries@[session_idx(
                    mid.entries@,
                    sid,
                )]);
                assert(self.user_of(sid) == mid.user_of(sid));
                assert(self.expiry_of(sid) == mid.expiry_of(sid));
                assert(mid.user_of(sid) == old(self).user_of(sid));
                assert(mid.expiry_of(sid) == old(self).expiry_of(sid));
            }
            assert(self.frames_others(*old(self), sid_view));
        }
    }

    /// The identity behind session `sid`, when the session exists and has
    /// not expired at time `now`.
    pub fn lookup(&self, sid: &str, now: u64) -> (r: Option<String>)
        requires
            self.wf(),
        ensures
            match r {
                Some(u) => self.lookup_outcome(sid@, now) == Some(u@),
                None => self.lookup_outcome(sid@, now) is None,
            },
    {
        match self.find_index(sid) {
            None => None,
            Some(i) => {
                proof {
                    self.lemma_lookup_unique(sid@, i as int);
                }
                let entry = &self.entries[i];
                if now < entry.expires_at {
                    Some(crate::text::clone_string(&entry.user_id))
                } else {
                    None
                }
            },
        }
    }

    /// Remove whatever session `sid` names, if any.
    pub fn remove_session(&mut self, sid: &str)
        requires
            old(self).wf(),
        ensures
            final(self).wf(),
            !final(self).contains_session(sid@),
            final(self).frames_others(*old(self), sid@),
    {
        let found = self.find_index(sid);
        match found {
            None => {
                proof {
                    assert(self.frames_others(*old(self), sid@));
                }
            },
            Some(i) => {
                proof {
                    old(self).lemma_lookup_unique(sid@, i as int);
                }
                let ghost pre = self.entries@;
                let _ = self.entries.remove(i);
                proof {
                    self.lemma_removed_session(pre, i as int, sid@);
                    self.lemma_frame_vs(*old(self), pre, sid@);
                }
            },
        }
    }

    /// Invalidate every session of `user_id`, as logout does.
    pub fn remove_user_sessions(&mut self, user_id: &str)
        requires
            old(self).wf(),
        ensures
            final(self).wf(),
            forall|sid: Seq<char>|
                #[trigger] final(self).contains_session(sid) == (old(self).contains_session(sid)
                    && old(self).user_of(sid) != user_id@),
            forall|sid: Seq<char>|
                final(self).contains_session(sid) ==> #[trigger] final(self).user_of(sid) == old(
                    self,
                ).user_of(sid) && final(self).expiry_of(sid) == old(self).expiry_of(sid),
    {
        loop
            invariant
                self.wf(),
                forall|sid: Seq<char>|
                    #[trigger] self.contains_session(sid) ==> old(self).contains_session(sid)
                        && self.user_of(sid) == old(self).user_of(sid) && self.expiry_of(sid) == old(
                        self,
                    ).expiry_of(sid),
                forall|sid: Seq<char>|
                    old(self).contains_session(sid) && old(self).user_of(sid) != user_id@
                        ==> #[trigger] self.contains_session(sid),
            decreases self.entries@.len(),
        {
            let found = self.find_user(user_id);
            match found {
                None => {
                    proof {
                        assert forall|sid: Seq<char>| #[trigger] self.contains_session(sid) == (old(
                            self,
                        ).contains_session(sid) && old(self).user_of(sid) != user_id@) by {
                            if self.contains_session(sid) {
                                let k = self.idx_of(sid);
                                assert(self.entries@[k].user_id@ != user_id@);
                            }
                        }
                    }
                    return ;
                },
                Some(i) => {
                    let ghost prior = *self;
                    let ghost pre = self.entries@;
                    let ghost sid = self.entries@[i as int].session_id@;
                    proof {
                        self.lemma_lookup_unique(sid, i as int);
                    }
                    let _ = self.entries.remove(i);
                    proof {
                        self.lemma_removed_session(pre, i as int, sid);
                        self.lemma_frame_vs(prior, pre, sid);
                        assert(prior.contains_session(sid) && prior.user_of(sid) == old(
                            self,
                        ).user_of(sid));
                    }
                },
            }
        }
    }

    /// Some index whose session belongs to `user_id`, if any.
    fn find_user(&self, user_id: &str) -> (r: Option<usize>)
        ensures
            match r {
                Some(i) => i < self.entries@.len() && self.entries@[i as int].user_id@ == user_id@,
                None => forall|j: int|
                    0 <= j < self.entries@.len() ==> (#[trigger] self.entries@[j]).user_id@
                        != user_id@,
            },
    {
        let mut i: usize = 0;
        while i < self.entries.len()
            invariant
                0 <= i <= self.entries@.len(),
                forall|j: int| 0 <= j < i ==> (#[trigger] self.entries@[j]).user_id@ != user_id@,
            decreases self.entries@.len() - i,
        {
            if crate::urls::str_eq(self.entries[i].user_id.as_str(), user_id) {
                return Some(i);
            }
            i = i + 1;
        }
        None
    }

    /// After removing index `i` (whose identifier is `sid`) from a
    /// well-formed store, `sid` is gone, every other identifier keeps its
    /// session, and the store stays well-formed.
    proof fn lemma_removed_session(self, pre: Seq<Session>, i: int, sid: Seq<char>)
        requires
            0 <= i < pre.len(),
            pre[i].session_id@ == sid,
            forall|a: int, b: int|
                0 <= a < b < pre.len() ==> (#[trigger] pre[a]).session_id@ != (
                #[trigger] pre[b]).session_id@,
            self.entries@ == pre.remove(i),
        ensures
            self.wf(),
            !self.contains_session(sid),
            forall|t: Seq<char>|
                t != sid ==> #[trigger] self.contains_session(t) == sessions_contain(pre, t),
            forall|t: Seq<char>|
                t != sid && #[trigger] self.contains_session(t) ==> self.entries@[self.idx_of(t)]
                    == pre[session_idx(pre, t)],
    {
        let post = self.entries@;
        assert(post.len() == pre.len() - 1);
        assert(forall|k: int| 0 <= k < i ==> post[k] == pre[k]);
        assert(forall|k: int| i <= k < post.len() ==> post[k] == pre[k + 1]);
        assert(self.wf());
        assert forall|k: int| 0 <= k < post.len() implies (#[trigger] post[k]).session_id@
            != sid by {
            if k < i {
                assert(pre[k].session_id@ != pre[i].session_id@);
            } else {
                assert(pre[k + 1].session_id@ != pre[i].session_id@);
            }
        }
        assert forall|t: Seq<char>| t != sid implies #[trigger] self.contains_session(t)
            == sessions_contain(pre, t) by {
            if self.contains_session(t) {
                let k = choose|k: int|
                    0 <= k < post.len() && (#[trigger] post[k]).session_id@ == t;
                if k < i {
                    assert(pre[k].session_id@ == t);
                } else {
                    assert(pre[k + 1].session_id@ == t);
                }
                assert(sessions_contain(pre, t));
            }
            if sessions_contain(pre, t) {
                let k = choose|k: int| 0 <= k < pre.len() && (#[trigger] pre[k]).session_id@ == t;
                assert(k != i);
                if k < i {
                    assert(post[k].session_id@ == t);
                } else {
                    assert(post[k - 1].session_id@ == t);
                }
                assert(self.contains_session(t));
            }
        }
        assert forall|t: Seq<char>| t != sid && #[trigger] self.contains_session(t) implies
            self.entries@[self.idx_of(t)] == pre[session_idx(pre, t)] by {
            let k = self.idx_of(t);
            assert(0 <= k < post.len() && post[k].session_id@ == t);
            let k_pre: int = if k < i {
                k
            } else {
                k + 1
            };
            assert(post[k] == pre[k_pre] && pre[k_pre].session_id@ == t);
            let j = session_idx(pre, t);
            assert(0 <= j < pre.len() && pre[j].session_id@ == t);
            if j != k_pre {
                assert(pre[j].session_id@ != pre[k_pre].session_id@);
            }
        }
    }

    /// Pushing a fresh session keeps every earlier identifier's session in
    /// place.
    proof fn lemma_frame_after_push(self, pre: Seq<Session>, sid: Seq<char>)
        requires
            forall|a: int, b: int|
                0 <= a < b < pre.len() ==> (#[trigger] pre[a]).session_id@ != (
                #[trigger] pre[b]).session_id@,
            self.entries@.len() == pre.len() + 1,
            forall|k: int| 0 <= k < pre.len() ==> #[trigger] self.entries@[k] == pre[k],
            self.entries@[pre.len() as int].session_id@ != sid,
        ensures
            self.contains_session(sid) == sessions_contain(pre, sid),
            self.contains_session(sid) ==> self.entries@[self.idx_of(sid)] == pre[session_idx(
                pre,
                sid,
            )],
    {
        let post = self.entries@;
        if self.contains_session(sid) {
            let k = self.idx_of(sid);
            assert(0 <= k < post.len() && post[k].session_id@ == sid);
            assert(k != pre.len());
            assert(pre[k].session_id@ == sid);
            assert(sessions_contain(pre, sid));
            let j = session_idx(pre, sid);
            assert(0 <= j < pre.len() && pre[j].session_id@ == sid);
            if j != k {
                assert(pre[j].session_id@ != pre[k].session_id@);
            }
        }
        if sessions_contain(pre, sid) {
            let j = session_idx(pre, sid);
            assert(post[j].session_id@ == sid);
            assert(self.contains_session(sid));
        }
    }

    /// Restate the conclusions of `lemma_removed_session` in terms of the
    /// store the session was removed from.
    proof fn lemma_frame_vs(self, prior: SessionStore, pre: Seq<Session>, sid: Seq<char>)
        requires
            prior.entries@ == pre,
            forall|t: Seq<char>|
                t != sid ==> #[trigger] self.contains_session(t) == sessions_contain(pre, t),
            forall|t: Seq<char>|
                t != sid && #[trigger] self.contains_session(t) ==> self.entries@[self.idx_of(t)]
                    == pre[session_idx(pre, t)],
        ensures
            self.frames_others(prior, sid),
    {
        assert forall|t: Seq<char>| t != sid implies #[trigger] self.contains_session(t)
            == prior.contains_session(t) by {
            assert(self.contains_session(t) == sessions_contain(pre, t));
        }
        assert forall|t: Seq<char>| t != sid && prior.contains_session(t) implies
            #[trigger] self.user_of(t) == prior.user_of(t) && self.expiry_of(t) == prior.expiry_of(
            t,
        ) by {
            assert(self.contains_session(t));
            assert(self.entries@[self.idx_of(t)] == pre[session_idx(pre, t)]);
        }
    }

    /// How many sessions are live.
    pub fn len(&self) -> (r: usize)
        ensures
            r == self.len_spec(),
    {
        self.entries.len()
    }
}

// ---------------------------------------------------------------------------
// Laws of the session layer
// ---------------------------------------------------------------------------

/// An expired session authenticates nobody, even if never deleted: once
/// `now` has reached its expiry, looking it up answers nothing.
pub proof fn lemma_expired_session_unusable(store: SessionStore, sid: Seq<char>, now: u64)
    requires
        store.contains_session(sid),
        now >= store.expiry_of(sid),
    ensures
        store.lookup_outcome(sid, now) is None,
{
}

/// A session that was removed - by logout - authenticates nobody.
pub proof fn lemma_removed_session_unusable(store: SessionStore, sid: Seq<char>, now: u64)
    requires
        !store.contains_session(sid),
    ensures
        store.lookup_outcome(sid, now) is None,
{
}

} // verus!
