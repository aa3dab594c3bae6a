//! Importing a playlist into the local store: which playlists a user has
//! imported, and how much of a playlist's data an import touches.  The
//! store itself is the in-process collaborator; a relational or graph
//! backing changes nothing about these contracts.

use vstd::prelude::*;

verus! {

/// One imported playlist, per user.
pub struct ImportRecord {
    pub user_id: String,
    pub playlist_id: String,
}

/// Which playlists each user has imported.
pub struct ImportStore {
    entries: Vec<ImportRecord>,
}

/// Whether `entries` records `(user, playlist)`.
pub open spec fn imports_contain(
    entries: Seq<ImportRecord>,
    user: Seq<char>,
    playlist: Seq<char>,
) -> bool {
    exists|i: int|
        0 <= i < entries.len() && (#[trigger] entries[i]).user_id@ == user && entries[i].playlist_id@
            == playlist
}

impl ImportStore {
    pub closed spec fn contains_import(self, user: Seq<char>, playlist: Seq<char>) -> bool {
        imports_contain(self.entries@, user, playlist)
    }

    pub fn new() -> (r: Self)
        ensures
            forall|u: Seq<char>, p: Seq<char>| !r.contains_import(u, p),
    {
        ImportStore { entries: Vec::new() }
    }

    /// Whether `user_id` has imported `playlist_id`.
    pub fn check_playlist_imported(&self, user_id: &str, playlist_id: &str) -> (r: bool)
        ensures
            r == self.contains_import(user_id@, playlist_id@),
    {
        let mut i: usize = 0;
        while i < self.entries.len()
            invariant
                0 <= i <= self.entries@.len(),
                forall|j: int|
                    0 <= j < i ==> !((#[trigger] self.entries@[j]).user_id@ == user_id@
                        && self.entries@[j].playlist_id@ == playlist_id@),
            decreases self.entries@.len() - i,
        {
            if crate::urls::str_eq(self.entries[i].user_id.as_str(), user_id) && crate::urls::str_eq(
                self.entries[i].playlist_id.as_str(),
                playlist_id,
            ) {
                return true;
            }
            i = i + 1;
        }
        false
    }

    /// Record that `user_id` imported `playlist_id`.
    pub fn mark_imported(&mut self, user_id: String, playlist_id: String)
        ensures
            final(self).contains_import(user_id@, playlist_id@),
            forall|u: Seq<char>, p: Seq<char>|
                #[trigger] final(self).contains_import(u, p) == (old(self).contains_import(u, p)
                    || (u == user_id@ && p == playlist_id@)),
    {
        if self.check_playlist_imported(user_id.as_str(), playlist_id.as_str()) {
            proof {
                assert forall|u: Seq<char>, p: Seq<char>|
                    #[trigger] self.contains_import(u, p) == (old(self).contains_import(u, p) || (u
                        == user_id@ && p == playlist_id@)) by {}
            }
            return ;
        }
        let ghost pre = self.entries@;
        let record = ImportRecord { user_id, playlist_id };
        self.entries.push(record);
        proof {
            let n = pre.len() as int;
            assert(self.entries@[n] == record);
            assert(forall|k: int| 0 <= k < n ==> #[trigger] self.entries@[k] == pre[k]);
            assert forall|u: Seq<char>, p: Seq<char>|
                #[trigger] self.contains_import(u, p) == (old(self).contains_import(u, p) || (u
                    == record.user_id@ && p == record.playlist_id@)) by {
                if self.contains_import(u, p) {
                    let k = choose|k: int|
                        0 <= k < self.entries@.len() && (#[trigger] self.entries@[k]).user_id@ == u
                            && self.entries@[k].playlist_id@ == p;
                    if k < n {
                        assert(imports_contain(pre, u, p));
                    }
                }
                if old(self).contains_import(u, p) {
                    let k = choose|k: int|
                        0 <= k < pre.len() && (#[trigger] pre[k]).user_id@ == u
                            && pre[k].playlist_id@ == p;
                    assert(self.entries@[k].user_id@ == u && self.entries@[k].playlist_id@ == p);
                }
                if u == record.user_id@ && p == record.playlist_id@ {
                    assert(self.entries@[n].user_id@ == u && self.entries@[n].playlist_id@ == p);
                }
            }
        }
    }

    /// The import status of each requested playlist, in request order.
    pub fn get_playlist_import_status(&self, user_id: &str, playlist_ids: &Vec<String>) -> (r: Vec<
        (String, bool),
    >)
        ensures
            r@.len() == playlist_ids@.len(),
            forall|i: int|
                0 <= i < r@.len() ==> (#[trigger] r@[i]).0@ == playlist_ids@[i]@ && r@[i].1
                    == self.contains_import(user_id@, playlist_ids@[i]@),
    {
        let mut out: Vec<(String, bool)> = Vec::new();
        let mut i: usize = 0;
        while i < playlist_ids.len()
            invariant
                0 <= i <= playlist_ids@.len(),
                out@.len() == i,
                forall|j: int|
                    0 <= j < i ==> (#[trigger] out@[j]).0@ == playlist_ids@[j]@ && out@[j].1
                        == self.contains_import(user_id@, playlist_ids@[j]@),
            decreases playlist_ids@.len() - i,
        {
            let pid = crate::text::clone_string(&playlist_ids[i]);
            let imported = self.check_playlist_imported(user_id, pid.as_str());
            out.push((pid, imported));
            i = i + 1;
        }
        out
    }
}

// ---------------------------------------------------------------------------
// What an import touches
// ---------------------------------------------------------------------------

/// How many artists of one track carry an id.
pub open spec fn artists_with_id(s: Seq<crate::models::SpotifyArtistSimple>) -> nat
    decreases s.len(),
{
    if s.len() == 0 {
        0
    } else {
        artists_with_id(s.drop_last()) + (if s.last().id is Some {
            1nat
        } else {
            0nat
        })
    }
}

/// How many tracks carry an id; only those are imported.
pub open spec fn tracks_with_id(s: Seq<crate::models::SpotifyTrackItem>) -> nat
    decreases s.len(),
{
    if s.len() == 0 {
        0
    } else {
        tracks_with_id(s.drop_last()) + (if s.last().id is Some {
            1nat
        } else {
            0nat
        })
    }
}

/// How many track-artist links an import creates: for each imported track,
/// its artists that carry an id.
pub open spec fn artist_links(s: Seq<crate::models::SpotifyTrackItem>) -> nat
    decreases s.len(),
{
    if s.len() == 0 {
        0
    } else {
        artist_links(s.drop_last()) + (if s.last().id is Some {
            artists_with_id(s.last().artists@)
        } else {
            0nat
        })
    }
}

fn count_artists_with_id(artists: &Vec<crate::models::SpotifyArtistSimple>) -> (r: usize)
    ensures
        r == artists_with_id(artists@),
{
    let mut count: usize = 0;
    let mut i: usize = 0;
    proof {
        assert(artists@.subrange(0, 0) =~= Seq::<crate::models::SpotifyArtistSimple>::empty());
    }
    while i < artists.len()
        invariant
            0 <= i <= artists@.len(),
            count == artists_with_id(artists@.subrange(0, i as int)),
            count <= i,
        decreases artists@.len() - i,
    {
        let ghost cur = artists@.subrange(0, i as int + 1);
        proof {
            assert(cur.drop_last() =~= artists@.subrange(0, i as int));
            assert(cur.last() == artists@[i as int]);
        }
        if artists[i].id.is_some() {
            count = count + 1;
        }
        i = i + 1;
    }
    proof {
        assert(artists@.subrange(0, artists@.len() as int) =~= artists@);
    }
    count
}

/// Count what importing these tracks touches: the tracks that carry an id,
/// and the track-artist links they bring.  The link count saturates at
/// `u64::MAX`.
pub fn import_counts(tracks: &Vec<crate::models::SpotifyTrackItem>) -> (r: (usize, u64))
    ensures
        r.0 == tracks_with_id(tracks@),
        artist_links(tracks@) <= u64::MAX ==> r.1 == artist_links(tracks@),
        artist_links(tracks@) > u64::MAX ==> r.1 == u64::MAX,
{
    let mut track_count: usize = 0;
    let mut link_count: u64 = 0;
    let mut i: usize = 0;
    proof {
        assert(tracks@.subrange(0, 0) =~= Seq::<crate::models::SpotifyTrackItem>::empty());
    }
    while i < tracks.len()
        invariant
            0 <= i <= tracks@.len(),
            track_count == tracks_with_id(tracks@.subrange(0, i as int)),
            track_count <= i,
            artist_links(tracks@.subrange(0, i as int)) <= u64::MAX ==> link_count == artist_links(
                tracks@.subrange(0, i as int),
            ),
            artist_links(tracks@.subrange(0, i as int)) > u64::MAX ==> link_count == u64::MAX,
        decreases tracks@.len() - i,
    {
        let ghost cur = tracks@.subrange(0, i as int + 1);
        proof {
            assert(cur.drop_last() =~= tracks@.subrange(0, i as int));
            assert(cur.last() == tracks@[i as int]);
        }
        if tracks[i].id.is_some() {
            track_count = track_count + 1;
            let links = count_artists_with_id(&tracks[i].artists);
            if link_count > u64::MAX - links as u64 {
                link_count = u64::MAX;
            } else {
                link_count = link_count + links as u64;
            }
        }
        i = i + 1;
    }
    proof {
        assert(tracks@.subrange(0, tracks@.len() as int) =~= tracks@);
    }
    (track_count, link_count)
}

} // verus!
