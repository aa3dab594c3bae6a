//! The persisted identities: one record per provider user, carrying the
//! display name and the token set owned by that identity.  The record is
//! created (or matched) on the first successful callback and its tokens are
//! mutated in place on refresh.

use vstd::prelude::*;

verus! {

/// One identity and its token set.
pub struct UserRecord {
    pub spotify_id: String,
    pub display_name: String,
    pub access_token: String,
    pub refresh_token: Option<String>,
}

/// The store of identities, keyed by their unique provider user ids.
pub struct UserStore {
    entries: Vec<UserRecord>,
}

/// Whether some record of `entries` is keyed by `id`.
pub open spec fn users_contain(entries: Seq<UserRecord>, id: Seq<char>) -> bool {
    exists|i: int| 0 <= i < entries.len() && (#[trigger] entries[i]).spotify_id@ == id
}

/// The index of the record of `entries` keyed by `id`.
pub open spec fn user_idx(entries: Seq<UserRecord>, id: Seq<char>) -> int {
    choose|i: int| 0 <= i < entries.len() && (#[trigger] entries[i]).spotify_id@ == id
}

/// The refresh token of a record, viewed.
pub open spec fn refresh_view(r: Option<String>) -> Option<Seq<char>> {
    match r {
        Some(t) => Some(t@),
        None => None,
    }
}

impl UserStore {
    /// Each provider user id names at most one record.
    pub closed spec fn wf(self) -> bool {
        forall|i: int, j: int|
            0 <= i < j < self.entries@.len() ==> (#[trigger] self.entries@[i]).spotify_id@ != (
            #[trigger] self.entries@[j]).spotify_id@
    }

    pub closed spec fn contains_user(self, id: Seq<char>) -> bool {
        users_contain(self.entries@, id)
    }

    pub closed spec fn idx_of(self, id: Seq<char>) -> int {
        user_idx(self.entries@, id)
    }

    pub closed spec fn display_of(self, id: Seq<char>) -> Seq<char> {
        self.entries@[self.idx_of(id)].display_name@
    }

    pub closed spec fn access_of(self, id: Seq<char>) -> Seq<char> {
        self.entries@[self.idx_of(id)].access_token@
    }

    pub closed spec fn refresh_of(self, id: Seq<char>) -> Option<Seq<char>> {
        refresh_view(self.entries@[self.idx_of(id)].refresh_token)
    }

    pub closed spec fn len_spec(self) -> nat {
        self.entries@.len()
    }

    /// Every identity other than `except` keeps exactly the record it had in
    /// `pre`.
    pub open spec fn frames_others(self, pre: UserStore, except: Seq<char>) -> bool {
        &&& forall|id: Seq<char>|
            id != except ==> #[trigger] self.contains_user(id) == pre.contains_user(id)
        &&& forall|id: Seq<char>|
            id != except && pre.contains_user(id) ==> #[trigger] self.display_of(id)
                == pre.display_of(id) && self.access_of(id) == pre.access_of(id) && self.refresh_of(
                id,
            ) == pre.refresh_of(id)
    }

    proof fn lemma_lookup_unique(self, id: Seq<char>, i: int)
        requires
            self.wf(),
            0 <= i < self.entries@.len(),
            self.entries@[i].spotify_id@ == id,
        ensures
            self.contains_user(id),
            self.idx_of(id) == i,
    {
        assert(self.contains_user(id));
        let j = self.idx_of(id);
        assert(0 <= j < self.entries@.len() && self.entries@[j].spotify_id@ == id);
        if i != j {
            assert(self.entries@[i].spotify_id@ != self.entries@[j].spotify_id@);
        }
    }

    pub fn new() -> (r: Self)
        ensures
            r.wf(),
            r.len_spec() == 0,
            forall|id: Seq<char>| !r.contains_user(id),
    {
        UserStore { entries: Vec::new() }
    }

    fn find_index(&self, id: &str) -> (r: Option<usize>)
        ensures
            match r {
                Some(i) => i < self.entries@.len() && self.entries@[i as int].spotify_id@ == id@,
                None => !self.contains_user(id@),
            },
    {
        let mut i: usize = 0;
        while i < self.entries.len()
            invariant
                0 <= i <= self.entries@.len(),
                forall|j: int| 0 <= j < i ==> (#[trigger] self.entries@[j]).spotify_id@ != id@,
            decreases self.entries@.len() - i,
        {
            if crate::urls::str_eq(self.entries[i].spotify_id.as_str(), id) {
                return Some(i);
            }
            i = i + 1;
        }
        None
    }

    /// Find-or-create the identity `spotify_id` and set its name and tokens,
    /// as the callback does after a successful code exchange.
    pub fn upsert_user(
        &mut self,
        spotify_id: String,
        display_name: String,
        access_token: String,
        refresh_token: Option<String>,
    )
        requires
            old(self).wf(),
        ensures
            final(self).wf(),
            final(self).contains_user(spotify_id@),
            final(self).display_of(spotify_id@) == display_name@,
            final(self).access_of(spotify_id@) == access_token@,
            final(self).refresh_of(spotify_id@) == refresh_view(refresh_token),
            final(self).frames_others(*old(self), spotify_id@),
    {
        let ghost id_view = spotify_id@;
        self.remove_user(spotify_id.as_str());
        let ghost mid = *self;
        let entry = UserRecord { spotify_id, display_name, access_token, refresh_token };
        self.push_fresh(entry);
        proof {
            assert(self.frames_others(mid, id_view));
            assert(mid.frames_others(*old(self), id_view));
            assert forall|id: Seq<char>| id != id_view implies #[trigger] self.contains_user(id)
                == old(self).contains_user(id) by {
                assert(self.contains_user(id) == mid.contains_user(id));
            }
            assert forall|id: Seq<char>|
                id != id_view && old(self).contains_user(id) implies #[trigger] self.display_of(id)
                == old(self).display_of(id) && self.access_of(id) == old(self).access_of(id)
                && self.refresh_of(id) == old(self).refresh_of(id) by {
                assert(mid.contains_user(id));
            }
            assert(self.frames_others(*old(self), id_view));
        }
    }

    /// Push a record whose id is not yet present.
    fn push_fresh(&mut self, entry: UserRecord)
        requires
            old(self).wf(),
            !old(self).contains_user(entry.spotify_id@),
        ensures
            final(self).wf(),
            final(self).contains_user(entry.spotify_id@),
            final(self).display_of(entry.spotify_id@) == entry.display_name@,
            final(self).access_of(entry.spotify_id@) == entry.access_token@,
            final(self).refresh_of(entry.spotify_id@) == refresh_view(entry.refresh_token),
            final(self).frames_others(*old(self), entry.spotify_id@),
    {
        let ghost mid = *self;
        let ghost id_view = entry.spotify_id@;
        let ghost entry_ghost = entry;
        self.entries.push(entry);
        proof {
            let n = mid.entries@.len() as int;
            assert(self.entries@ == mid.entries@.push(entry_ghost));
            assert(forall|k: int| 0 <= k < n ==> #[trigger] self.entries@[k] == mid.entries@[k]);
            assert(self.entries@[n] == entry_ghost);
            assert forall|a: int, b: int| 0 <= a < b < self.entries@.len() implies (
            #[trigger] self.entries@[a]).spotify_id@ != (#[trigger] self.entries@[b]).spotify_id@ by {
                if b == n {
                    assert(!mid.contains_user(id_view));
                    assert(mid.entries@[a].spotify_id@ != id_view);
                }
            }
            self.lemma_lookup_unique(id_view, n);
            assert forall|id: Seq<char>| id != id_view implies #[trigger] self.contains_user(id)
                == mid.contains_user(id) by {
                assert(self.entries@[n].spotify_id@ != id);
                self.lemma_frame_after_push(mid.entries@, id);
                assert(self.contains_user(id) == users_contain(mid.entries@, id));
            }
            assert forall|id: Seq<char>|
                id != id_view && mid.contains_user(id) implies #[trigger] self.display_of(id)
                == mid.display_of(id) && self.access_of(id) == mid.access_of(id) && self.refresh_of(
                id,
            ) == mid.refresh_of(id) by {
                assert(self.entries@[n].spotify_id@ != id);
                self.lemma_frame_after_push(mid.entries@, id);
                assert(self.contains_user(id));
                assert(self.entries@[self.idx_of(id)] == mid.entries@[user_idx(mid.entries@, id)]);
            }
            assert(self.frames_others(mid, id_view));
        }
    }

    /// Remove whatever record `id` names, if any.
    pub fn remove_user(&mut self, id: &str)
        requires
            old(self).wf(),
        ensures
            final(self).wf(),
            !final(self).contains_user(id@),
            final(self).frames_others(*old(self), id@),
    {
        let found = self.find_index(id);
        match found {
            None => {
                proof {
                    assert(self.frames_others(*old(self), id@));
                }
            },
            Some(i) => {
                proof {
                    old(self).lemma_lookup_unique(id@, i as int);
                }
                let ghost pre = self.entries@;
                let _ = self.entries.remove(i);
                proof {
                    self.lemma_removed_user(pre, i as int, id@);
                    self.lemma_frame_vs(*old(self), pre, id@);
                }
            },
        }
    }

    /// The access token of identity `id`.
    pub fn get_access_token(&self, id: &str) -> (r: Option<String>)
        requires
            self.wf(),
        ensures
            match r {
                Some(t) => self.contains_user(id@) && t@ == self.access_of(id@),
                None => !self.contains_user(id@),
            },
    {
        match self.find_index(id) {
            None => None,
            Some(i) => {
                proof {
                    self.lemma_lookup_unique(id@, i as int);
                }
                Some(crate::text::clone_string(&self.entries[i].access_token))
            },
        }
    }

    /// The refresh token of identity `id`, when the identity exists and owns
    /// one.
    pub fn get_refresh_token(&self, id: &str) -> (r: Option<String>)
        requires
            self.wf(),
        ensures
            match r {
                Some(t) => self.contains_user(id@) && self.refresh_of(id@) == Some(t@),
                None => !self.contains_user(id@) || self.refresh_of(id@) is None,
            },
    {
        match self.find_index(id) {
            None => None,
            Some(i) => {
                proof {
                    self.lemma_lookup_unique(id@, i as int);
                }
                match &self.entries[i].refresh_token {
                    Some(t) => Some(crate::text::clone_string(t)),
                    None => None,
                }
            },
        }
    }

    /// The refresh token of identity `id`, telling an unknown identity
    /// (`Err(true)`) apart from one that owns no refresh token
    /// (`Err(false)`).
    pub fn find_refresh(&self, id: &str) -> (r: Result<String, bool>)
        requires
            self.wf(),
        ensures
            match r {
                Ok(t) => self.contains_user(id@) && self.refresh_of(id@) == Some(t@),
                Err(absent) => {
                    if absent {
                        !self.contains_user(id@)
                    } else {
                        self.contains_user(id@) && self.refresh_of(id@) is None
                    }
                },
            },
    {
        match self.find_index(id) {
            None => Err(true),
            Some(i) => {
                proof {
                    self.lemma_lookup_unique(id@, i as int);
                }
                match &self.entries[i].refresh_token {
                    Some(t) => Ok(crate::text::clone_string(t)),
                    None => Err(false),
                }
            },
        }
    }

    /// The display name of identity `id`.
    pub fn get_display_name(&self, id: &str) -> (r: Option<String>)
        requires
            self.wf(),
        ensures
            match r {
                Some(t) => self.contains_user(id@) && t@ == self.display_of(id@),
                None => !self.contains_user(id@),
            },
    {
        match self.find_index(id) {
            None => None,
            Some(i) => {
                proof {
                    self.lemma_lookup_unique(id@, i as int);
                }
                Some(crate::text::clone_string(&self.entries[i].display_name))
            },
        }
    }

    /// Overwrite the access token of identity `id`, leaving its name and
    /// refresh token alone.  An unknown identity is left untouched.
    pub fn update_access_token(&mut self, id: &str, new_token: String)
        requires
            old(self).wf(),
        ensures
            final(self).wf(),
            final(self).contains_user(id@) == old(self).contains_user(id@),
            old(self).contains_user(id@) ==> final(self).access_of(id@) == new_token@
                && final(self).display_of(id@) == old(self).display_of(id@)
                && final(self).refresh_of(id@) == old(self).refresh_of(id@),
            final(self).frames_others(*old(self), id@),
    {
        let found = self.find_index(id);
        match found {
            None => {
                proof {
                    assert(self.frames_others(*old(self), id@));
                }
            },
            Some(i) => {
                proof {
                    old(self).lemma_lookup_unique(id@, i as int);
                }
                let ghost pre = self.entries@;
                let entry = self.entries.remove(i);
                proof {
                    self.lemma_removed_user(pre, i as int, id@);
                    self.lemma_frame_vs(*old(self), pre, id@);
                }
                let ghost mid = *self;
                let updated = UserRecord {
                    spotify_id: entry.spotify_id,
                    display_name: entry.display_name,
                    access_token: new_token,
                    refresh_token: entry.refresh_token,
                };
                self.push_fresh(updated);
                proof {
                    self.lemma_chain_frames(*old(self), mid, id@);
                }
            },
        }
    }

    /// Install the outcome of a token refresh for identity `id`: the new
    /// access token always replaces the old one, and the refresh token is
    /// rotated only when the provider returned a new one.  An unknown
    /// identity is left untouched.
    pub fn apply_refresh(&mut self, id: &str, new_access: String, new_refresh: Option<String>)
        requires
            old(self).wf(),
        ensures
            final(self).wf(),
            final(self).contains_user(id@) == old(self).contains_user(id@),
            old(self).contains_user(id@) ==> final(self).access_of(id@) == new_access@
                && final(self).display_of(id@) == old(self).display_of(id@)
                && final(self).refresh_of(id@) == (match new_refresh {
                Some(t) => Some(t@),
                None => old(self).refresh_of(id@),
            }),
            final(self).frames_others(*old(self), id@),
    {
        let found = self.find_index(id);
        match found {
            None => {
                proof {
                    assert(self.frames_others(*old(self), id@));
                }
            },
            Some(i) => {
                proof {
                    old(self).lemma_lookup_unique(id@, i as int);
                }
                let ghost pre = self.entries@;
                let entry = self.entries.remove(i);
                proof {
                    self.lemma_removed_user(pre, i as int, id@);
                    self.lemma_frame_vs(*old(self), pre, id@);
                }
                let ghost mid = *self;
                let rotated = match new_refresh {
                    Some(t) => Some(t),
                    None => entry.refresh_token,
                };
                let updated = UserRecord {
                    spotify_id: entry.spotify_id,
                    display_name: entry.display_name,
                    access_token: new_access,
                    refresh_token: rotated,
                };
                self.push_fresh(updated);
                proof {
                    self.lemma_chain_frames(*old(self), mid, id@);
                }
            },
        }
    }

    /// Chaining two frame conditions over the same exception.
    proof fn lemma_chain_frames(self, first: UserStore, mid: UserStore, except: Seq<char>)
        requires
            mid.frames_others(first, except),
            self.frames_others(mid, except),
        ensures
            self.frames_others(first, except),
    {
        assert forall|id: Seq<char>| id != except implies #[trigger] self.contains_user(id)
            == first.contains_user(id) by {
            assert(self.contains_user(id) == mid.contains_user(id));
        }
        assert forall|id: Seq<char>|
            id != except && first.contains_user(id) implies #[trigger] self.display_of(id)
            == first.display_of(id) && self.access_of(id) == first.access_of(id) && self.refresh_of(
            id,
        ) == first.refresh_of(id) by {
            assert(mid.contains_user(id));
        }
    }

    /// After removing index `i` (whose id is `id`) from a well-formed store,
    /// `id` is gone, every other identity keeps its record, and the store
    /// stays well-formed.
    proof fn lemma_removed_user(self, pre: Seq<UserRecord>, i: int, id: Seq<char>)
        requires
            0 <= i < pre.len(),
            pre[i].spotify_id@ == id,
            forall|a: int, b: int|
                0 <= a < b < pre.len() ==> (#[trigger] pre[a]).spotify_id@ != (
                #[trigger] pre[b]).spotify_id@,
            self.entries@ == pre.remove(i),
        ensures
            self.wf(),
            !self.contains_user(id),
            forall|t: Seq<char>|
                t != id ==> #[trigger] self.contains_user(t) == users_contain(pre, t),
            forall|t: Seq<char>|
                t != id && #[trigger] self.contains_user(t) ==> self.entries@[self.idx_of(t)]
                    == pre[user_idx(pre, t)],
    {
        let post = self.entries@;
        assert(post.len() == pre.len() - 1);
        assert(forall|k: int| 0 <= k < i ==> post[k] == pre[k]);
        assert(forall|k: int| i <= k < post.len() ==> post[k] == pre[k + 1]);
        assert(self.wf());
        assert forall|k: int| 0 <= k < post.len() implies (#[trigger] post[k]).spotify_id@ != id by {
            if k < i {
                assert(pre[k].spotify_id@ != pre[i].spotify_id@);
            } else {
                assert(pre[k + 1].spotify_id@ != pre[i].spotify_id@);
            }
        }
        assert forall|t: Seq<char>| t != id implies #[trigger] self.contains_user(t)
            == users_contain(pre, t) by {
            if self.contains_user(t) {
                let k = choose|k: int| 0 <= k < post.len() && (#[trigger] post[k]).spotify_id@ == t;
                if k < i {
                    assert(pre[k].spotify_id@ == t);
                } else {
                    assert(pre[k + 1].spotify_id@ == t);
                }
                assert(users_contain(pre, t));
            }
            if users_contain(pre, t) {
                let k = choose|k: int| 0 <= k < pre.len() && (#[trigger] pre[k]).spotify_id@ == t;
                assert(k != i);
                if k < i {
                    assert(post[k].spotify_id@ == t);
                } else {
                    assert(post[k - 1].spotify_id@ == t);
                }
                assert(self.contains_user(t));
            }
        }
        assert forall|t: Seq<char>| t != id && #[trigger] self.contains_user(t) implies
            self.entries@[self.idx_of(t)] == pre[user_idx(pre, t)] by {
            let k = self.idx_of(t);
            assert(0 <= k < post.len() && post[k].spotify_id@ == t);
            let k_pre: int = if k < i {
                k
            } else {
                k + 1
            };
            assert(post[k] == pre[k_pre] && pre[k_pre].spotify_id@ == t);
            let j = user_idx(pre, t);
            assert(0 <= j < pre.len() && pre[j].spotify_id@ == t);
            if j != k_pre {
                assert(pre[j].spotify_id@ != pre[k_pre].spotify_id@);
            }
        }
    }

    /// Pushing a fresh record keeps every earlier identity's record in
    /// place.
    proof fn lemma_frame_after_push(self, pre: Seq<UserRecord>, id: Seq<char>)
        requires
            forall|a: int, b: int|
                0 <= a < b < pre.len() ==> (#[trigger] pre[a]).spotify_id@ != (
                #[trigger] pre[b]).spotify_id@,
            self.entries@.len() == pre.len() + 1,
            forall|k: int| 0 <= k < pre.len() ==> #[trigger] self.entries@[k] == pre[k],
            self.entries@[pre.len() as int].spotify_id@ != id,
        ensures
            self.contains_user(id) == users_contain(pre, id),
            self.contains_user(id) ==> self.entries@[self.idx_of(id)] == pre[user_idx(pre, id)],
    {
        let post = self.entries@;
        if self.contains_user(id) {
            let k = self.idx_of(id);
            assert(0 <= k < post.len() && post[k].spotify_id@ == id);
            assert(k != pre.len());
            assert(pre[k].spotify_id@ == id);
            assert(users_contain(pre, id));
            let j = user_idx(pre, id);
            assert(0 <= j < pre.len() && pre[j].spotify_id@ == id);
            if j != k {
                assert(pre[j].spotify_id@ != pre[k].spotify_id@);
            }
        }
        if users_contain(pre, id) {
            let j = user_idx(pre, id);
            assert(post[j].spotify_id@ == id);
            assert(self.contains_user(id));
        }
    }

    /// Restate the conclusions of `lemma_removed_user` in terms of the store
    /// the record was removed from.
    proof fn lemma_frame_vs(self, prior: UserStore, pre: Seq<UserRecord>, id: Seq<char>)
        requires
            prior.entries@ == pre,
            forall|t: Seq<char>|
                t != id ==> #[trigger] self.contains_user(t) == users_contain(pre, t),
            forall|t: Seq<char>|
                t != id && #[trigger] self.contains_user(t) ==> self.entries@[self.idx_of(t)]
                    == pre[user_idx(pre, t)],
        ensures
            self.frames_others(prior, id),
    {
        assert forall|t: Seq<char>| t != id implies #[trigger] self.contains_user(t)
            == prior.contains_user(t) by {
            assert(self.contains_user(t) == users_contain(pre, t));
        }
        assert forall|t: Seq<char>| t != id && prior.contains_user(t) implies
            #[trigger] self.display_of(t) == prior.display_of(t) && self.access_of(t)
            == prior.access_of(t) && self.refresh_of(t) == prior.refresh_of(t) by {
            assert(self.contains_user(t));
            assert(self.entries@[self.idx_of(t)] == pre[user_idx(pre, t)]);
        }
    }

    /// How many identities are stored.
    pub fn len(&self) -> (r: usize)
        ensures
            r == self.len_spec(),
    {
        self.entries.len()
    }
}

} // verus!
