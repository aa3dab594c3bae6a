//! The short-lived store behind the CSRF defense of the OAuth flow: a map
//! from a random `state` token to the PKCE verifier created with it.  An
//! entry is read once - the callback removes it - and is unusable once its
//! expiry time has passed, whether or not it was ever removed.

use vstd::prelude::*;

verus! {

/// One pending login: the `state` token handed to the provider and the PKCE
/// verifier to present at the code exchange.
pub struct AuthorizationRequest {
    pub state: String,
    pub code_verifier: String,
    pub created_at: u64,
    pub expires_at: u64,
}

/// The store of pending logins, keyed by their unique `state` tokens.
pub struct StateStore {
    entries: Vec<AuthorizationRequest>,
}

impl StateStore {
    /// Each `state` names at most one entry.
    pub closed spec fn wf(self) -> bool {
        forall|i: int, j: int|
            0 <= i < j < self.entries@.len() ==> (#[trigger] self.entries@[i]).state@ != (
            #[trigger] self.entries@[j]).state@
    }

    pub closed spec fn contains_state(self, s: Seq<char>) -> bool {
        entries_contain(self.entries@, s)
    }

    pub closed spec fn idx_of(self, s: Seq<char>) -> int {
        entry_idx(self.entries@, s)
    }

    pub closed spec fn verifier_of(self, s: Seq<char>) -> Seq<char> {
        self.entries@[self.idx_of(s)].code_verifier@
    }

    pub closed spec fn expiry_of(self, s: Seq<char>) -> u64 {
        self.entries@[self.idx_of(s)].expires_at
    }

    pub closed spec fn len_spec(self) -> nat {
        self.entries@.len()
    }

    /// What consuming `s` at time `now` answers: the verifier stored for
    /// `s`, provided `s` is present and not yet expired.
    pub open spec fn consume_outcome(self, s: Seq<char>, now: u64) -> Option<Seq<char>> {
        if self.contains_state(s) && now < self.expiry_of(s) {
            Some(self.verifier_of(s))
        } else {
            None
        }
    }

    /// Every state other than `except` keeps exactly the entry it had in
    /// `pre`.
    pub open spec fn frames_others(self, pre: StateStore, except: Seq<char>) -> bool {
        &&& forall|s: Seq<char>|
            s != except ==> #[trigger] self.contains_state(s) == pre.contains_state(s)
        &&& forall|s: Seq<char>|
            s != except && pre.contains_state(s) ==> #[trigger] self.verifier_of(s)
                == pre.verifier_of(s) && self.expiry_of(s) == pre.expiry_of(s)
    }

    proof fn lemma_lookup_unique(self, s: Seq<char>, i: int)
        requires
            self.wf(),
            0 <= i < self.entries@.len(),
            self.entries@[i].state@ == s,
        ensures
            self.contains_state(s),
            self.idx_of(s) == i,
    {
        assert(self.contains_state(s));
        let j = self.idx_of(s);
        assert(0 <= j < self.entries@.len() && self.entries@[j].state@ == s);
        if i != j {
            assert(self.entries@[i].state@ != self.entries@[j].state@);
        }
    }

    pub fn new() -> (r: Self)
        ensures
            r.wf(),
            r.len_spec() == 0,
            forall|s: Seq<char>| !r.contains_state(s),
    {
        StateStore { entries: Vec::new() }
    }

    fn find_index(&self, state: &str) -> (r: Option<usize>)
        ensures
            match r {
                Some(i) => i < self.entries@.len() && self.entries@[i as int].state@ == state@,
                None => !self.contains_state(state@),
            },
    {
        let mut i: usize = 0;
        while i < self.entries.len()
            invariant
                0 <= i <= self.entries@.len(),
                forall|j: int| 0 <= j < i ==> (#[trigger] self.entries@[j]).state@ != state@,
            decreases self.entries@.len() - i,
        {
            if crate::urls::str_eq(self.entries[i].state.as_str(), state) {
                return Some(i);
            }
            i = i + 1;
        }
        None
    }

    /// Record a pending login under `state`.  Any earlier entry under the
    /// same token is replaced.
    pub fn insert(&mut self, state: String, code_verifier: String, now: u64, ttl: u64)
        requires
            old(self).wf(),
            now + ttl <= u64::MAX,
        ensures
            final(self).wf(),
            final(self).contains_state(state@),
            final(self).verifier_of(state@) == code_verifier@,
            final(self).expiry_of(state@) == now + ttl,
            final(self).frames_others(*old(self), state@),
    {
        self.drop_state(state.as_str());
        let ghost mid = *self;
        let ghost state_view = state@;
        let entry = AuthorizationRequest {
            state,
            code_verifier,
            created_at: now,
            expires_at: now + ttl,
        };
        self.entries.push(entry);
        proof {
            let n = mid.entries@.len() as int;
            assert(self.entries@ == mid.entries@.push(entry));
            assert(forall|k: int| 0 <= k < n ==> #[trigger] self.entries@[k] == mid.entries@[k]);
            assert(self.entries@[n] == entry);
            // The pushed state is fresh in `mid`, so the store stays
            // well-formed.
            assert forall|a: int, b: int| 0 <= a < b < self.entries@.len() implies (
            #[trigger] self.entries@[a]).state@ != (#[trigger] self.entries@[b]).state@ by {
                if b == n {
                    assert(!mid.contains_state(state_view));
                    assert(mid.entries@[a].state@ != state_view);
                }
            }
            self.lemma_lookup_unique(state_view, n);
            assert forall|s: Seq<char>| s != state_view implies #[trigger] self.contains_state(s)
                == old(self).contains_state(s) by {
                assert(self.entries@[n].state@ != s);
                self.lemma_frame_after_push(mid.entries@, s);
                assert(self.contains_state(s) == entries_contain(mid.entries@, s));
                assert(entries_contain(mid.entries@, s) == mid.contains_state(s));
                assert(mid.contains_state(s) == old(self).contains_state(s));
            }
            assert forall|s: Seq<char>|
                s != state_view && old(self).contains_state(s) implies #[trigger] self.verifier_of(
                s,
            ) == old(self).verifier_of(s) && self.expiry_of(s) == old(self).expiry_of(s) by {
                assert(self.entries@[n].state@ != s);
                self.lemma_frame_after_push(mid.entries@, s);
                assert(mid.contains_state(s) == old(self).contains_state(s));
                assert(mid.contains_state(s));
                assert(self.contains_state(s));
                assert(self.entries@[self.idx_of(s)] == mid.entries@[entry_idx(mid.entries@, s)]);
                assert(self.verifier_of(s) == mid.verifier_of(s));
                assert(self.expiry_of(s) == mid.expiry_of(s));
                assert(mid.verifier_of(s) == old(self).verifier_of(s));
                assert(mid.expiry_of(s) == old(self).expiry_of(s));
            }
            assert(self.frames_others(*old(self), state@));
        }
    }

    /// Atomically look `state` up and remove it.  The verifier comes back
    /// only when the entry exists and has not expired; in every case the
    /// entry is gone afterwards.
    pub fn consume(&mut self, state: &str, now: u64) -> (r: Option<String>)
        requires
            old(self).wf(),
        ensures
            final(self).wf(),
            match r {
                Some(v) => old(self).consume_outcome(state@, now) == Some(v@),
                None => old(self).consume_outcome(state@, now) is None,
            },
            !final(self).contains_state(state@),
            final(self).frames_others(*old(self), state@),
    {
        let found = self.find_index(state);
        match found {
            None => {
                proof {
                    assert(!old(self).contains_state(state@));
                    assert(self.frames_others(*old(self), state@));
                }
                None
            },
            Some(i) => {
                proof {
                    old(self).lemma_lookup_unique(state@, i as int);
                }
                let ghost pre = self.entries@;
                let entry = self.entries.remove(i);
                proof {
                    self.lemma_removed_state(pre, i as int, state@);
                    self.lemma_frame_vs(*old(self), pre, state@);
                }
                if now < entry.expires_at {
                    Some(entry.code_verifier)
                } else {
                    None
                }
            },
        }
    }

    /// Restate the conclusions of `lemma_removed_state` in terms of the
    /// store the entry was removed from.
    proof fn lemma_frame_vs(self, prior: StateStore, pre: Seq<AuthorizationRequest>, s: Seq<char>)
        requires
            prior.entries@ == pre,
            forall|t: Seq<char>|
                t != s ==> #[trigger] self.contains_state(t) == entries_contain(pre, t),
            forall|t: Seq<char>|
                t != s && #[trigger] self.contains_state(t) ==> self.entries@[self.idx_of(t)]
                    == pre[entry_idx(pre, t)],
        ensures
            self.frames_others(prior, s),
    {
        assert forall|t: Seq<char>| t != s implies #[trigger] self.contains_state(t)
            == prior.contains_state(t) by {
            assert(self.contains_state(t) == entries_contain(pre, t));
        }
        assert forall|t: Seq<char>| t != s && prior.contains_state(t) implies
            #[trigger] self.verifier_of(t) == prior.verifier_of(t) && self.expiry_of(t)
            == prior.expiry_of(t) by {
            assert(self.contains_state(t));
            assert(self.entries@[self.idx_of(t)] == pre[entry_idx(pre, t)]);
        }
    }

    /// Remove whatever entry `state` names, if any.
    fn drop_state(&mut self, state: &str)
        requires
            old(self).wf(),
        ensures
            final(self).wf(),
            !final(self).contains_state(state@),
            final(self).frames_others(*old(self), state@),
    {
        let found = self.find_index(state);
        match found {
            None => {
                proof {
                    assert(self.frames_others(*old(self), state@));
                }
            },
            Some(i) => {
                proof {
                    old(self).lemma_lookup_unique(state@, i as int);
                }
                let ghost pre = self.entries@;
                let _ = self.entries.remove(i);
                proof {
                    self.lemma_removed_state(pre, i as int, state@);
                    self.lemma_frame_vs(*old(self), pre, state@);
                }
            },
        }
    }

    /// After removing index `i` (whose state is `s`) from a well-formed
    /// store, `s` is gone, every other state keeps its entry, and the store
    /// stays well-formed.
    proof fn lemma_removed_state(self, pre: Seq<AuthorizationRequest>, i: int, s: Seq<char>)
        requires
            0 <= i < pre.len(),
            pre[i].state@ == s,
            forall|a: int, b: int|
                0 <= a < b < pre.len() ==> (#[trigger] pre[a]).state@ != (#[trigger] pre[b]).state@,
            self.entries@ == pre.remove(i),
        ensures
            self.wf(),
            !self.contains_state(s),
            forall|t: Seq<char>|
                t != s ==> #[trigger] self.contains_state(t) == entries_contain(pre, t),
            forall|t: Seq<char>|
                t != s && #[trigger] self.contains_state(t) ==> self.entries@[self.idx_of(t)]
                    == pre[entry_idx(pre, t)],
    {
        let post = self.entries@;
        assert(post.len() == pre.len() - 1);
        assert(forall|k: int| 0 <= k < i ==> post[k] == pre[k]);
        assert(forall|k: int| i <= k < post.len() ==> post[k] == pre[k + 1]);
        assert(self.wf());
        assert forall|k: int| 0 <= k < post.len() implies (#[trigger] post[k]).state@ != s by {
            if k < i {
                assert(pre[k].state@ != pre[i].state@);
            } else {
                assert(pre[k + 1].state@ != pre[i].state@);
            }
        }
        assert forall|t: Seq<char>| t != s implies #[trigger] self.contains_state(t)
            == entries_contain(pre, t) by {
            if self.contains_state(t) {
                let k = choose|k: int| 0 <= k < post.len() && (#[trigger] post[k]).state@ == t;
                if k < i {
                    assert(pre[k].state@ == t);
                } else {
                    assert(pre[k + 1].state@ == t);
                }
                assert(entries_contain(pre, t));
            }
            if entries_contain(pre, t) {
                let k = choose|k: int| 0 <= k < pre.len() && (#[trigger] pre[k]).state@ == t;
                assert(k != i);
                if k < i {
                    assert(post[k].state@ == t);
                } else {
                    assert(post[k - 1].state@ == t);
                }
                assert(self.contains_state(t));
            }
        }
        assert forall|t: Seq<char>| t != s && #[trigger] self.contains_state(t) implies
            self.entries@[self.idx_of(t)] == pre[entry_idx(pre, t)] by {
            let k = self.idx_of(t);
            assert(0 <= k < post.len() && post[k].state@ == t);
            let k_pre: int = if k < i {
                k
            } else {
                k + 1
            };
            assert(post[k] == pre[k_pre] && pre[k_pre].state@ == t);
            let j = entry_idx(pre, t);
            assert(0 <= j < pre.len() && pre[j].state@ == t);
            if j != k_pre {
                assert(pre[j].state@ != pre[k_pre].state@);
            }
        }
    }

    /// Pushing a fresh entry keeps every earlier state's entry in place.
    proof fn lemma_frame_after_push(self, pre: Seq<AuthorizationRequest>, s: Seq<char>)
        requires
            forall|a: int, b: int|
                0 <= a < b < pre.len() ==> (#[trigger] pre[a]).state@ != (#[trigger] pre[b]).state@,
            self.entries@.len() == pre.len() + 1,
            forall|k: int| 0 <= k < pre.len() ==> #[trigger] self.entries@[k] == pre[k],
            self.entries@[pre.len() as int].state@ != s,
        ensures
            self.contains_state(s) == entries_contain(pre, s),
            self.contains_state(s) ==> self.entries@[self.idx_of(s)] == pre[entry_idx(pre, s)],
    {
        let post = self.entries@;
        if self.contains_state(s) {
            let k = self.idx_of(s);
            assert(0 <= k < post.len() && post[k].state@ == s);
            assert(k != pre.len());
            assert(pre[k].state@ == s);
            assert(entries_contain(pre, s));
            let j = entry_idx(pre, s);
            assert(0 <= j < pre.len() && pre[j].state@ == s);
            if j != k {
                assert(pre[j].state@ != pre[k].state@);
            }
        }
        if entries_contain(pre, s) {
            let j = entry_idx(pre, s);
            assert(post[j].state@ == s);
            assert(self.contains_state(s));
        }
    }

    /// How many logins are pending.
    pub fn len(&self) -> (r: usize)
        ensures
            r == self.len_spec(),
    {
        self.entries.len()
    }
}

/// Whether some entry of `entries` is keyed by `s`.
pub open spec fn entries_contain(entries: Seq<AuthorizationRequest>, s: Seq<char>) -> bool {
    exists|i: int| 0 <= i < entries.len() && (#[trigger] entries[i]).state@ == s
}

/// The index of the entry of `entries` keyed by `s`.
pub open spec fn entry_idx(entries: Seq<AuthorizationRequest>, s: Seq<char>) -> int {
    choose|i: int| 0 <= i < entries.len() && (#[trigger] entries[i]).state@ == s
}

// ---------------------------------------------------------------------------
// Laws of the state store
// ---------------------------------------------------------------------------

/// A `state` can be consumed at most once: a store that no longer contains
/// it - as after any consume of it, successful or not - answers a further
/// consume with nothing, so the second callback ends in a state mismatch.
pub proof fn lemma_state_single_use(store: StateStore, s: Seq<char>, now: u64)
    requires
        !store.contains_state(s),
    ensures
        store.consume_outcome(s, now) is None,
{
}

/// An entry that outlived its TTL is unusable even if never deleted: once
/// `now` has reached the entry's expiry, consuming it answers nothing.
pub proof fn lemma_expired_state_unusable(store: StateStore, s: Seq<char>, now: u64)
    requires
        store.contains_state(s),
        now >= store.expiry_of(s),
    ensures
        store.consume_outcome(s, now) is None,
{
}

} // verus!
