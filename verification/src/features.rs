//! Selecting the track ids whose audio features are requested: empty ids
//! are dropped and the upstream's per-request limit caps the batch.  The
//! feature payloads themselves are produced outside the library.

use vstd::prelude::*;
use vstd::string::StrSliceExecFns;

verus! {

/// The first `cap` nonempty entries of `s`, in order.
pub open spec fn nonempty_capped(s: Seq<String>, cap: nat) -> Seq<String>
    decreases s.len(),
{
    if s.len() == 0 || cap == 0 {
        Seq::empty()
    } else if s[0]@.len() > 0 {
        seq![s[0]] + nonempty_capped(s.drop_first(), (cap - 1) as nat)
    } else {
        nonempty_capped(s.drop_first(), cap)
    }
}

/// The ids of the first `cap` tracks that carry one, in order.
pub open spec fn ids_capped(s: Seq<crate::models::SpotifyTrackItem>, cap: nat) -> Seq<String>
    decreases s.len(),
{
    if s.len() == 0 || cap == 0 {
        Seq::empty()
    } else {
        match s[0].id {
            Some(id) => seq![id] + ids_capped(s.drop_first(), (cap - 1) as nat),
            None => ids_capped(s.drop_first(), cap),
        }
    }
}

/// Keep the nonempty ids, at most the upstream's limit of 100 per request.
pub fn valid_feature_ids(ids: Vec<String>) -> (r: Vec<String>)
    ensures
        r@ == nonempty_capped(ids@, 100),
{
    let ghost orig = ids@;
    let mut remaining = ids;
    let mut out: Vec<String> = Vec::new();
    while remaining.len() > 0 && out.len() < 100
        invariant
            out@.len() <= 100,
            nonempty_capped(orig, 100) == out@ + nonempty_capped(
                remaining@,
                (100 - out@.len()) as nat,
            ),
        decreases remaining@.len(),
    {
        let ghost pre_remaining = remaining@;
        let ghost pre_out = out@;
        let id = remaining.remove(0);
        proof {
            assert(pre_remaining[0] == id);
            assert(pre_remaining.drop_first() =~= remaining@);
        }
        if id.as_str().unicode_len() > 0 {
            out.push(id);
            proof {
                assert(out@ =~= pre_out.push(id));
                assert(pre_out + nonempty_capped(pre_remaining, (100 - pre_out.len()) as nat)
                    =~= out@ + nonempty_capped(remaining@, (100 - out@.len()) as nat));
            }
        }
    }
    proof {
        if remaining@.len() == 0 {
            assert(nonempty_capped(remaining@, (100 - out@.len()) as nat) =~= Seq::<
                String,
            >::empty());
        } else {
            assert(out@.len() == 100);
            assert(nonempty_capped(remaining@, 0) =~= Seq::<String>::empty());
        }
        assert(out@ =~= nonempty_capped(orig, 100));
    }
    out
}

/// The ids probed for audio features: the first ten tracks that carry one.
pub fn probe_track_ids(tracks: Vec<crate::models::SpotifyTrackItem>) -> (r: Vec<String>)
    ensures
        r@ == ids_capped(tracks@, 10),
{
    let ghost orig = tracks@;
    let mut remaining = tracks;
    let mut out: Vec<String> = Vec::new();
    while remaining.len() > 0 && out.len() < 10
        invariant
            out@.len() <= 10,
            ids_capped(orig, 10) == out@ + ids_capped(remaining@, (10 - out@.len()) as nat),
        decreases remaining@.len(),
    {
        let ghost pre_remaining = remaining@;
        let ghost pre_out = out@;
        let t = remaining.remove(0);
        proof {
            assert(pre_remaining[0] == t);
            assert(pre_remaining.drop_first() =~= remaining@);
        }
        match t.id {
            Some(id) => {
                out.push(id);
                proof {
                    assert(out@ =~= pre_out.push(out@.last()));
                    assert(pre_out + ids_capped(pre_remaining, (10 - pre_out.len()) as nat) =~= out@
                        + ids_capped(remaining@, (10 - out@.len()) as nat));
                }
            },
            None => {},
        }
    }
    proof {
        if remaining@.len() == 0 {
            assert(ids_capped(remaining@, (10 - out@.len()) as nat) =~= Seq::<String>::empty());
        } else {
            assert(out@.len() == 10);
            assert(ids_capped(remaining@, 0) =~= Seq::<String>::empty());
        }
        assert(out@ =~= ids_capped(orig, 10));
    }
    out
}

} // verus!
