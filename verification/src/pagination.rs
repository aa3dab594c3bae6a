//! The cursor-pagination algorithm: accumulate the items of each page, chase
//! the `next` link by parsing `offset` and `limit` out of its query string,
//! and stop cleanly when there is no `next`.  A present `next` whose cursor
//! cannot be parsed is a malformed-cursor failure, never a panic or a loop.
//!
//! The transport fetches each page; the `Pager` decides everything else.

use vstd::prelude::*;

verus! {

/// What the pager asks of its driver after a page was folded in.
pub enum PagerStep {
    /// Fetch another page with this limit and offset, then report it.
    Continue { limit: u32, offset: u32 },
    /// The collection is complete.
    Done,
    /// The upstream `next` link carried no usable cursor.
    MalformedCursor,
}

/// The state of one paginated fetch.
pub struct Pager<T> {
    items: Vec<T>,
    limit: u32,
    offset: u32,
    done: bool,
    failed: bool,
}

impl<T> Pager<T> {
    /// Everything accumulated so far, in arrival order.
    pub closed spec fn items_view(self) -> Seq<T> {
        self.items@
    }

    pub closed spec fn is_done(self) -> bool {
        self.done
    }

    pub closed spec fn is_failed(self) -> bool {
        self.failed
    }

    pub open spec fn running(self) -> bool {
        !self.is_done() && !self.is_failed()
    }

    pub closed spec fn limit_spec(self) -> u32 {
        self.limit
    }

    pub closed spec fn offset_spec(self) -> u32 {
        self.offset
    }

    /// A fetch about to ask for `(limit, offset)` with nothing accumulated.
    pub fn new(limit: u32, offset: u32) -> (r: Self)
        ensures
            r.running(),
            r.items_view() == Seq::<T>::empty(),
            r.limit_spec() == limit,
            r.offset_spec() == offset,
    {
        Pager { items: Vec::new(), limit, offset, done: false, failed: false }
    }

    /// The `(limit, offset)` pair the next page request must carry.
    pub fn request(&self) -> (r: (u32, u32))
        requires
            self.running(),
        ensures
            r.0 == self.limit_spec(),
            r.1 == self.offset_spec(),
    {
        (self.limit, self.offset)
    }

    /// Fold one fetched page in: append its items, then either finish (no
    /// `next`), continue at the cursor parsed out of `next`, or fail on a
    /// `next` without a usable cursor.
    pub fn on_page(&mut self, page_items: Vec<T>, next: Option<&str>) -> (r: PagerStep)
        requires
            old(self).running(),
        ensures
            final(self).items_view() == old(self).items_view() + page_items@,
            match next {
                None => r is Done && final(self).is_done() && !final(self).is_failed(),
                Some(u) => match crate::urls::cursor_of(u@) {
                    Some(c) => r == (PagerStep::Continue { limit: c.1, offset: c.0 })
                        && final(self).running() && final(self).limit_spec() == c.1
                        && final(self).offset_spec() == c.0,
                    None => r is MalformedCursor && final(self).is_failed(),
                },
            },
    {
        let mut page_items = page_items;
        self.items.append(&mut page_items);
        match next {
            None => {
                self.done = true;
                PagerStep::Done
            },
            Some(u) => {
                match crate::urls::parse_cursor(u) {
                    Some(c) => {
                        self.offset = c.0;
                        self.limit = c.1;
                        PagerStep::Continue { limit: c.1, offset: c.0 }
                    },
                    None => {
                        self.failed = true;
                        PagerStep::MalformedCursor
                    },
                }
            },
        }
    }

    /// Hand the accumulated items out.
    pub fn into_items(self) -> (r: Vec<T>)
        ensures
            r@ == self.items_view(),
    {
        self.items
    }

    /// How many items accumulated so far.
    pub fn len(&self) -> (r: usize)
        ensures
            r == self.items_view().len(),
    {
        self.items.len()
    }
}

// ---------------------------------------------------------------------------
// Filtering the track wrappers
// ---------------------------------------------------------------------------

/// The tracks present in a page's wrapper entries, in order; wrappers with
/// no underlying track contribute nothing.
pub open spec fn present_tracks(s: Seq<crate::models::PlaylistItemTrackWrapper>) -> Seq<
    crate::models::SpotifyTrackItem,
>
    decreases s.len(),
{
    if s.len() == 0 {
        Seq::empty()
    } else {
        present_tracks(s.drop_last()) + (match s.last().track {
            Some(t) => seq![t],
            None => Seq::empty(),
        })
    }
}

/// Drop the wrapper entries with no underlying track.
pub fn flatten_present_tracks(items: Vec<crate::models::PlaylistItemTrackWrapper>) -> (r: Vec<
    crate::models::SpotifyTrackItem,
>)
    ensures
        r@ == present_tracks(items@),
{
    let ghost orig = items@;
    let mut remaining = items;
    let n = remaining.len();
    proof {
        assert(orig.len() == n);
    }
    let mut out: Vec<crate::models::SpotifyTrackItem> = Vec::new();
    let mut processed: usize = 0;
    while remaining.len() > 0
        invariant
            orig.len() == n,
            orig == orig.subrange(0, processed as int) + remaining@,
            0 <= processed <= orig.len(),
            remaining@.len() == orig.len() - processed,
            out@ == present_tracks(orig.subrange(0, processed as int)),
        decreases remaining@.len(),
    {
        let w = remaining.remove(0);
        proof {
            let cur = orig.subrange(0, processed as int + 1);
            assert(cur.drop_last() =~= orig.subrange(0, processed as int));
            assert(orig[processed as int] == w);
            assert(cur.last() == w);
            assert(orig == cur + remaining@);
        }
        match w.track {
            Some(t) => {
                out.push(t);
            },
            None => {},
        }
        processed = processed + 1;
        proof {
            assert(out@ =~= present_tracks(orig.subrange(0, processed as int)));
        }
    }
    proof {
        assert(orig.subrange(0, processed as int) =~= orig);
    }
    out
}

// ---------------------------------------------------------------------------
// De-duplicating playlists by id
// ---------------------------------------------------------------------------

/// Keep the first occurrence of each playlist id, in first-seen order,
/// given the ids already seen.
pub open spec fn dedup_from(
    s: Seq<crate::models::SpotifyPlaylistItem>,
    seen: Set<Seq<char>>,
) -> Seq<crate::models::SpotifyPlaylistItem>
    decreases s.len(),
{
    if s.len() == 0 {
        Seq::empty()
    } else if seen.contains(s[0].id@) {
        dedup_from(s.drop_first(), seen)
    } else {
        seq![s[0]] + dedup_from(s.drop_first(), seen.insert(s[0].id@))
    }
}

/// Keep the first occurrence of each playlist id, in first-seen order.
pub open spec fn dedup_by_id_spec(s: Seq<crate::models::SpotifyPlaylistItem>) -> Seq<
    crate::models::SpotifyPlaylistItem,
> {
    dedup_from(s, Set::empty())
}

/// Nothing the de-duplication keeps carries an id that was already seen,
/// and no id occurs twice among what it keeps.
proof fn lemma_dedup_from_unique(s: Seq<crate::models::SpotifyPlaylistItem>, seen: Set<Seq<char>>)
    ensures
        forall|k: int|
            0 <= k < dedup_from(s, seen).len() ==> !seen.contains(
                (#[trigger] dedup_from(s, seen)[k]).id@,
            ),
        forall|i: int, j: int|
            0 <= i < j < dedup_from(s, seen).len() ==> (#[trigger] dedup_from(s, seen)[i]).id@ != (
            #[trigger] dedup_from(s, seen)[j]).id@,
    decreases s.len(),
{
    if s.len() == 0 {
    } else if seen.contains(s[0].id@) {
        lemma_dedup_from_unique(s.drop_first(), seen);
    } else {
        let seen2 = seen.insert(s[0].id@);
        lemma_dedup_from_unique(s.drop_first(), seen2);
        let rest = dedup_from(s.drop_first(), seen2);
        let out = dedup_from(s, seen);
        assert(out == seq![s[0]] + rest);
        assert(out[0] == s[0]);
        assert(forall|k: int| 1 <= k < out.len() ==> #[trigger] out[k] == rest[k - 1]);
        assert forall|k: int| 0 <= k < out.len() implies !seen.contains(
            (#[trigger] out[k]).id@,
        ) by {
            if k >= 1 {
                assert(!seen2.contains(rest[k - 1].id@));
            }
        }
        assert forall|i: int, j: int| 0 <= i < j < out.len() implies (#[trigger] out[i]).id@ != (
        #[trigger] out[j]).id@ by {
            if i == 0 {
                assert(!seen2.contains(rest[j - 1].id@));
                assert(seen2.contains(s[0].id@));
            } else {
                assert(out[i] == rest[i - 1] && out[j] == rest[j - 1]);
            }
        }
    }
}

/// The de-duplicated listing names each playlist id once: any two entries
/// of the result carry different ids.
pub proof fn lemma_dedup_ids_unique(s: Seq<crate::models::SpotifyPlaylistItem>)
    ensures
        forall|i: int, j: int|
            0 <= i < j < dedup_by_id_spec(s).len() ==> (#[trigger] dedup_by_id_spec(s)[i]).id@ != (
            #[trigger] dedup_by_id_spec(s)[j]).id@,
{
    lemma_dedup_from_unique(s, Set::empty());
}

fn contains_str(v: &Vec<String>, s: &str) -> (r: bool)
    ensures
        r == exists|j: int| 0 <= j < v@.len() && (#[trigger] v@[j])@ == s@,
{
    let mut i: usize = 0;
    while i < v.len()
        invariant
            0 <= i <= v@.len(),
            forall|j: int| 0 <= j < i ==> (#[trigger] v@[j])@ != s@,
        decreases v@.len() - i,
    {
        if crate::urls::str_eq(v[i].as_str(), s) {
            return true;
        }
        i = i + 1;
    }
    false
}

/// De-duplicate a playlist listing by id, preserving first-seen order; the
/// provider's top-level listing can return overlapping entries across pages.
pub fn dedup_by_id(items: Vec<crate::models::SpotifyPlaylistItem>) -> (r: Vec<
    crate::models::SpotifyPlaylistItem,
>)
    ensures
        r@ == dedup_by_id_spec(items@),
{
    let ghost orig = items@;
    let mut remaining = items;
    let mut out: Vec<crate::models::SpotifyPlaylistItem> = Vec::new();
    let mut seen_ids: Vec<String> = Vec::new();
    let ghost seen: Set<Seq<char>> = Set::empty();
    proof {
        assert(orig == out@ + remaining@);
    }
    while remaining.len() > 0
        invariant
            dedup_by_id_spec(orig) == out@ + dedup_from(remaining@, seen),
            forall|id: Seq<char>|
                #[trigger] seen.contains(id) <==> exists|j: int|
                    0 <= j < seen_ids@.len() && (#[trigger] seen_ids@[j])@ == id,
        decreases remaining@.len(),
    {
        let ghost pre_remaining = remaining@;
        let ghost pre_seen = seen;
        let p = remaining.remove(0);
        proof {
            assert(pre_remaining[0] == p);
            assert(pre_remaining.drop_first() =~= remaining@);
        }
        if contains_str(&seen_ids, p.id.as_str()) {
            proof {
                assert(pre_seen.contains(p.id@));
                assert(dedup_from(pre_remaining, pre_seen) == dedup_from(remaining@, seen));
            }
        } else {
            proof {
                assert(!pre_seen.contains(p.id@));
            }
            let ghost p_ghost = p;
            let ghost pre_ids = seen_ids@;
            seen_ids.push(crate::text::clone_string(&p.id));
            out.push(p);
            proof {
                seen = pre_seen.insert(p_ghost.id@);
                let m = pre_ids.len() as int;
                assert(forall|j: int| 0 <= j < m ==> #[trigger] seen_ids@[j] == pre_ids[j]);
                assert(seen_ids@[m]@ == p_ghost.id@);
                assert(dedup_from(pre_remaining, pre_seen) == seq![p_ghost] + dedup_from(
                    remaining@,
                    seen,
                ));
                assert(out@ + dedup_from(remaining@, seen) =~= (out@.drop_last() + (seq![p_ghost]
                    + dedup_from(remaining@, seen))));
                assert forall|id: Seq<char>| #[trigger] seen.contains(id) implies exists|j: int|
                    0 <= j < seen_ids@.len() && (#[trigger] seen_ids@[j])@ == id by {
                    if id == p_ghost.id@ {
                        assert(seen_ids@[m]@ == id);
                    } else {
                        assert(pre_seen.contains(id));
                        let j = choose|j: int| 0 <= j < pre_ids.len() && (#[trigger] pre_ids[j])@
                            == id;
                        assert(seen_ids@[j]@ == id);
                    }
                }
                assert forall|id: Seq<char>|
                    (exists|j: int| 0 <= j < seen_ids@.len() && (#[trigger] seen_ids@[j])@ == id)
                        implies #[trigger] seen.contains(id) by {
                    let j = choose|j: int|
                        0 <= j < seen_ids@.len() && (#[trigger] seen_ids@[j])@ == id;
                    if j < m {
                        assert(pre_ids[j]@ == id);
                        assert(pre_seen.contains(id));
                    } else {
                        assert(id == p_ghost.id@);
                    }
                }
            }
        }
    }
    proof {
        assert(remaining@ =~= Seq::<crate::models::SpotifyPlaylistItem>::empty());
        assert(dedup_from(remaining@, seen) =~= Seq::<crate::models::SpotifyPlaylistItem>::empty());
        assert(out@ =~= dedup_by_id_spec(orig));
    }
    out
}

} // verus!
