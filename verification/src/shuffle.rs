//! The unbiased in-memory shuffle that replaces the provider's biased one:
//! Fisher-Yates over the track URIs, driven by a uniform random index pick.
//! The output is proved to be a permutation of the input.

use vstd::prelude::*;

verus! {

// ---------------------------------------------------------------------------
// Track URIs
// ---------------------------------------------------------------------------

/// The provider URIs of the tracks that have an id, in order: one
/// `spotify:track:{id}` per such track.
pub open spec fn track_uris_spec(s: Seq<crate::models::SpotifyTrackItem>) -> Seq<Seq<char>>
    decreases s.len(),
{
    if s.len() == 0 {
        Seq::empty()
    } else {
        track_uris_spec(s.drop_last()) + (match s.last().id {
            Some(id) => seq!["spotify:track:"@ + id@],
            None => Seq::empty(),
        })
    }
}

/// Extract the provider URIs of the fetched tracks, dropping any track that
/// lacks an id.
pub fn extract_track_uris(tracks: Vec<crate::models::SpotifyTrackItem>) -> (r: Vec<String>)
    ensures
        r.deep_view() == track_uris_spec(tracks@),
{
    let ghost orig = tracks@;
    let mut remaining = tracks;
    let n = remaining.len();
    proof {
        assert(orig.len() == n);
    }
    let mut out: Vec<String> = Vec::new();
    let mut processed: usize = 0;
    while remaining.len() > 0
        invariant
            orig.len() == n,
            orig == orig.subrange(0, processed as int) + remaining@,
            0 <= processed <= orig.len(),
            remaining@.len() == orig.len() - processed,
            out.deep_view() == track_uris_spec(orig.subrange(0, processed as int)),
        decreases remaining@.len(),
    {
        let ghost pre_out = out.deep_view();
        let t = remaining.remove(0);
        proof {
            let cur = orig.subrange(0, processed as int + 1);
            assert(cur.drop_last() =~= orig.subrange(0, processed as int));
            assert(orig[processed as int] == t);
            assert(cur.last() == t);
            assert(orig == cur + remaining@);
        }
        match t.id {
            Some(id) => {
                let mut uri = "spotify:track:".to_owned();
                uri.append(id.as_str());
                out.push(uri);
                proof {
                    assert(out.deep_view() =~= pre_out.push("spotify:track:"@ + id@));
                }
            },
            None => {},
        }
        processed = processed + 1;
        proof {
            assert(out.deep_view() =~= track_uris_spec(orig.subrange(0, processed as int)));
        }
    }
    proof {
        assert(orig.subrange(0, processed as int) =~= orig);
    }
    out
}

// ---------------------------------------------------------------------------
// Fisher-Yates
// ---------------------------------------------------------------------------

/// Swapping two positions of a sequence leaves its multiset of elements
/// unchanged.
proof fn lemma_swap_preserves_multiset<A>(s: Seq<A>, k: int, j: int)
    requires
        0 <= k < s.len(),
        0 <= j < s.len(),
    ensures
        s.update(k, s[j]).update(j, s[k]).to_multiset() == s.to_multiset(),
{
    broadcast use vstd::seq_lib::to_multiset_update;
    broadcast use vstd::seq_lib::group_to_multiset_ensures;
    broadcast use vstd::multiset::group_multiset_axioms;

    if j == k {
        assert(s.update(k, s[j]).update(j, s[k]) =~= s);
    } else {
        let s1 = s.update(k, s[j]);
        assert(s1[j] == s[j]);
        assert(s.contains(s[k]));
        assert(s.contains(s[j]));
        assert(s.to_multiset().count(s[k]) > 0);
        assert(s.to_multiset().count(s[j]) > 0);
        assert(s1.to_multiset() == s.to_multiset().insert(s[j]).remove(s[k]));
        assert(s1.update(j, s[k]).to_multiset() == s1.to_multiset().insert(s[k]).remove(s1[j]));
        assert(s.update(k, s[j]).update(j, s[k]).to_multiset() =~= s.to_multiset());
    }
}

/// Shuffle the URI list in place with Fisher-Yates, one uniform index pick
/// per step.  The result holds exactly the elements it started with - a
/// permutation - whatever the random picks were.
pub fn fisher_yates(uris: &mut Vec<String>)
    ensures
        final(uris)@.len() == old(uris)@.len(),
        final(uris).deep_view().to_multiset() == old(uris).deep_view().to_multiset(),
{
    let n = uris.len();
    if n == 0 {
        return ;
    }
    let mut k: usize = n - 1;
    while k > 0
        invariant
            uris@.len() == n,
            0 <= k < n,
            uris.deep_view().to_multiset() == old(uris).deep_view().to_multiset(),
        decreases k,
    {
        let j = crate::rng::sample_below(k + 1);
        let ghost pre = uris@;
        let ghost pre_dv = uris.deep_view();
        let a = crate::text::clone_string(&uris[k]);
        let b = crate::text::clone_string(&uris[j]);
        uris[k] = b;
        uris[j] = a;
        proof {
            assert(uris.deep_view() =~= pre_dv.update(k as int, pre_dv[j as int]).update(
                j as int,
                pre_dv[k as int],
            ));
            lemma_swap_preserves_multiset(pre_dv, k as int, j as int);
        }
        k = k - 1;
    }
}

} // verus!
