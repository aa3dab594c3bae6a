//! The shuffle-and-publish workflow: a sequential state machine that fetches
//! the source tracks, shuffles their URIs, creates the destination playlist,
//! inserts the URIs in fixed-size batches with a courtesy delay between
//! batches, and finishes with a best-effort cover copy that can never fail
//! the workflow.  The transport performs each outside step and reports its
//! outcome; every decision in between is made here.

use vstd::prelude::*;

verus! {

/// The upstream API accepts at most this many tracks per insert request.
pub const TRACKS_PER_BATCH: usize = 100;

/// The fixed courtesy delay between consecutive insert batches, in
/// milliseconds.
pub const BATCH_DELAY_MS: u64 = 250;

// ---------------------------------------------------------------------------
// Batch planning
// ---------------------------------------------------------------------------

/// The concatenation of the batches, in order.
pub open spec fn batches_flat(bs: Seq<Vec<String>>) -> Seq<String>
    decreases bs.len(),
{
    if bs.len() == 0 {
        Seq::empty()
    } else {
        batches_flat(bs.drop_last()) + bs.last()@
    }
}

/// Split the URIs into insert batches: every batch is full except possibly
/// the last, no batch is empty, and concatenating them in order gives the
/// input back.
pub fn plan_batches(uris: Vec<String>, size: usize) -> (r: Vec<Vec<String>>)
    requires
        size > 0,
    ensures
        batches_flat(r@) == uris@,
        forall|i: int| 0 <= i < r@.len() ==> #[trigger] r@[i]@.len() > 0,
        forall|i: int| 0 <= i < r@.len() ==> #[trigger] r@[i]@.len() <= size,
        forall|i: int| 0 <= i < r@.len() - 1 ==> #[trigger] r@[i]@.len() == size,
        r@.len() == 0 <==> uris@.len() == 0,
{
    let ghost orig = uris@;
    let mut remaining = uris;
    let mut out: Vec<Vec<String>> = Vec::new();
    proof {
        assert(batches_flat(out@) + remaining@ =~= orig);
    }
    while remaining.len() > 0
        invariant
            size > 0,
            batches_flat(out@) + remaining@ == orig,
            forall|i: int| 0 <= i < out@.len() ==> #[trigger] out@[i]@.len() > 0,
            forall|i: int| 0 <= i < out@.len() ==> #[trigger] out@[i]@.len() <= size,
            forall|i: int|
                0 <= i < out@.len() && (i < out@.len() - 1 || remaining@.len() > 0)
                    ==> #[trigger] out@[i]@.len() == size,
        decreases remaining@.len(),
    {
        let take = if remaining.len() > size {
            size
        } else {
            remaining.len()
        };
        let ghost pre_remaining = remaining@;
        let ghost pre_out = out@;
        let tail = remaining.split_off(take);
        let ghost chunk = remaining@;
        out.push(remaining);
        remaining = tail;
        proof {
            assert(out@.drop_last() =~= pre_out);
            assert(out@.last() == out@[pre_out.len() as int]);
            assert(out@.last()@ == chunk);
            assert(batches_flat(out@) == batches_flat(pre_out) + chunk);
            assert(batches_flat(out@) + remaining@ =~= (batches_flat(pre_out) + pre_remaining));
            assert forall|i: int|
                0 <= i < out@.len() && (i < out@.len() - 1 || remaining@.len() > 0)
                    implies #[trigger] out@[i]@.len() == size by {
                if i < out@.len() - 1 {
                    assert(out@[i] == pre_out[i]);
                    assert(pre_remaining.len() > 0);
                } else {
                    assert(out@[i]@ == chunk);
                    assert(remaining@.len() > 0 ==> take == size);
                }
            }
        }
    }
    proof {
        assert(remaining@.len() == 0);
        assert(batches_flat(out@) =~= orig);
    }
    out
}

/// Whether a rate-limit delay follows batch `index`: one delay between
/// consecutive batches, none after the last, so `count` batches see exactly
/// `count - 1` delays.
pub fn delay_after_batch(index: usize, count: usize) -> (r: bool)
    requires
        index < count,
    ensures
        r == (index + 1 < count),
{
    index + 1 < count
}

// ---------------------------------------------------------------------------
// The batch-insert job
// ---------------------------------------------------------------------------

/// The state of the batch-insert step: which batches exist, how many have
/// been accepted upstream, and whether one failed.  Batches are sent one at
/// a time, in order; a failure is terminal and nothing sent before it is
/// rolled back.
pub struct BatchInsertJob {
    batches: Vec<Vec<String>>,
    next: usize,
    failed: bool,
}

impl BatchInsertJob {
    pub closed spec fn batches_view(self) -> Seq<Vec<String>> {
        self.batches@
    }

    /// How many batches have been accepted upstream.
    pub closed spec fn sent_spec(self) -> nat {
        self.next as nat
    }

    pub closed spec fn failed_spec(self) -> bool {
        self.failed
    }

    pub open spec fn wf(self) -> bool {
        self.sent_spec() <= self.batches_view().len()
    }

    /// The job still has a batch to send and has not failed.
    pub open spec fn running(self) -> bool {
        !self.failed_spec() && self.sent_spec() < self.batches_view().len()
    }

    /// All batches were accepted.
    pub open spec fn succeeded(self) -> bool {
        !self.failed_spec() && self.sent_spec() == self.batches_view().len()
    }

    pub fn new(batches: Vec<Vec<String>>) -> (r: Self)
        ensures
            r.wf(),
            r.batches_view() == batches@,
            r.sent_spec() == 0,
            !r.failed_spec(),
    {
        BatchInsertJob { batches, next: 0, failed: false }
    }

    pub fn is_running(&self) -> (r: bool)
        requires
            self.wf(),
        ensures
            r == self.running(),
    {
        !self.failed && self.next < self.batches.len()
    }

    pub fn has_succeeded(&self) -> (r: bool)
        requires
            self.wf(),
        ensures
            r == self.succeeded(),
    {
        !self.failed && self.next == self.batches.len()
    }

    /// The batch to send next.
    pub fn current_batch(&self) -> (r: &Vec<String>)
        requires
            self.wf(),
            self.running(),
        ensures
            r == self.batches_view()[self.sent_spec() as int],
    {
        &self.batches[self.next]
    }

    /// Whether a courtesy delay must follow the batch just accepted.
    pub fn needs_delay(&self) -> (r: bool)
        requires
            self.wf(),
        ensures
            r == (self.sent_spec() < self.batches_view().len()),
    {
        self.next < self.batches.len()
    }

    /// Record the upstream's answer for the batch just sent.  Success moves
    /// on to the next batch; failure is terminal, keeps every batch already
    /// sent in place, and stops anything further from being sent.
    pub fn on_batch_result(&mut self, accepted: bool)
        requires
            old(self).wf(),
            old(self).running(),
        ensures
            final(self).wf(),
            final(self).batches_view() == old(self).batches_view(),
            accepted ==> final(self).sent_spec() == old(self).sent_spec() + 1
                && !final(self).failed_spec(),
            !accepted ==> final(self).failed_spec()
                && final(self).sent_spec() == old(self).sent_spec(),
    {
        if accepted {
            let cap = self.batches.len();
            assert(self.next < cap);
            self.next = self.next + 1;
        } else {
            self.failed = true;
        }
    }
}

/// A failed batch is terminal: a job that has failed is never running, so no
/// further batch can be sent, and its count of accepted batches never moves
/// again - the tracks already inserted stay, and no rollback is issued.
pub proof fn lemma_batch_failure_terminal(job: BatchInsertJob)
    requires
        job.failed_spec(),
    ensures
        !job.running(),
        !job.succeeded(),
{
}

// ---------------------------------------------------------------------------
// The workflow stages
// ---------------------------------------------------------------------------

/// The stages of one shuffle job, from the explicit user trigger to a
/// terminal completion or error.
pub enum ShuffleStage {
    Idle,
    FetchingTracks,
    ShufflingAndCreatingPlaylist { num_tracks_to_shuffle: usize },
    Completed(crate::models::NewPlaylistDetails),
    Error(String),
}

/// The explicit user action that starts a job: only an idle job starts
/// fetching.
pub fn start_shuffle(stage: ShuffleStage) -> (r: ShuffleStage)
    requires
        stage is Idle,
    ensures
        r is FetchingTracks,
{
    ShuffleStage::FetchingTracks
}

/// Leave a terminal error for a fresh attempt; the retry refetches from
/// scratch, so any cached tracks must be discarded by the caller.
pub fn retry_shuffle(stage: ShuffleStage) -> (r: ShuffleStage)
    requires
        stage is Error,
    ensures
        r is Idle,
{
    ShuffleStage::Idle
}

/// Fold the outcome of the track fetch into the job: an empty playlist is a
/// terminal error, a fetch failure is a terminal error, and otherwise the
/// job advances to shuffling with the fetched tracks cached.
pub fn on_tracks_fetched(outcome: Result<Vec<crate::models::SpotifyTrackItem>, String>) -> (r: (
    ShuffleStage,
    Option<Vec<crate::models::SpotifyTrackItem>>,
))
    ensures
        match outcome {
            Ok(ts) => {
                if ts@.len() == 0 {
                    (r.0 matches ShuffleStage::Error(m)
                        && m@ == "Selected playlist is empty or no tracks were found."@) && r.1
                        is None
                } else {
                    (r.0 == (ShuffleStage::ShufflingAndCreatingPlaylist {
                        num_tracks_to_shuffle: ts@.len() as usize,
                    })) && r.1 == Some(ts)
                }
            },
            Err(e) => (r.0 matches ShuffleStage::Error(m)
                && m@ == "Failed to fetch tracks: "@ + e@) && r.1 is None,
        },
{
    match outcome {
        Ok(ts) => {
            if ts.len() == 0 {
                let msg = "Selected playlist is empty or no tracks were found.".to_owned();
                (ShuffleStage::Error(msg), None)
            } else {
                let n = ts.len();
                (ShuffleStage::ShufflingAndCreatingPlaylist { num_tracks_to_shuffle: n }, Some(ts))
            }
        },
        Err(e) => {
            let mut msg = "Failed to fetch tracks: ".to_owned();
            msg.append(e.as_str());
            (ShuffleStage::Error(msg), None)
        },
    }
}

/// Fold the outcome of the publish step into the job: success completes the
/// job with the new playlist's details, failure is a terminal error.
pub fn on_publish_outcome(outcome: Result<crate::models::NewPlaylistDetails, String>) -> (r:
    ShuffleStage)
    ensures
        match outcome {
            Ok(d) => r == ShuffleStage::Completed(d),
            Err(e) => r matches ShuffleStage::Error(m) && m@ == "Failed to shuffle and save playlist: "@
                + e@,
        },
{
    match outcome {
        Ok(d) => ShuffleStage::Completed(d),
        Err(e) => {
            let mut msg = "Failed to shuffle and save playlist: ".to_owned();
            msg.append(e.as_str());
            ShuffleStage::Error(msg)
        },
    }
}

// ---------------------------------------------------------------------------
// Publish preparation and completion
// ---------------------------------------------------------------------------

/// The destination playlist's name.
pub fn new_playlist_name(original: &str) -> (r: String)
    ensures
        r@ == original@ + " - TRUE SHUFFLED"@,
{
    let mut r = String::new();
    r.append(original);
    r.append(" - TRUE SHUFFLED");
    r
}

/// The destination playlist's description.
pub fn playlist_description(original: &str) -> (r: String)
    ensures
        r@ == "A true random shuffle of '"@ + original@ + "'!"@,
{
    let mut r = String::new();
    r.append("A true random shuffle of '");
    r.append(original);
    r.append("'!");
    r
}

/// Extract the URIs of the fetched tracks and shuffle them.  An empty
/// playlist and a playlist with no usable track ids are terminal errors;
/// otherwise the result is a permutation of the playlist's track URIs.
pub fn prepare_shuffled_uris(
    tracks: Vec<crate::models::SpotifyTrackItem>,
    playlist_name: &str,
) -> (r: Result<Vec<String>, String>)
    ensures
        match r {
            Ok(uris) => {
                &&& tracks@.len() > 0
                &&& crate::shuffle::track_uris_spec(tracks@).len() > 0
                &&& uris.deep_view().to_multiset() == crate::shuffle::track_uris_spec(
                    tracks@,
                ).to_multiset()
                &&& uris@.len() == crate::shuffle::track_uris_spec(tracks@).len()
            },
            Err(m) => {
                &&& (tracks@.len() == 0 ==> m@ == "Playlist '"@ + playlist_name@ + "' is empty."@)
                &&& (tracks@.len() > 0 ==> crate::shuffle::track_uris_spec(tracks@).len() == 0 && m@
                    == "No valid track URIs found in the playlist."@)
            },
        },
{
    if tracks.len() == 0 {
        let mut msg = String::new();
        msg.append("Playlist '");
        msg.append(playlist_name);
        msg.append("' is empty.");
        return Err(msg);
    }
    let mut uris = crate::shuffle::extract_track_uris(tracks);
    if uris.len() == 0 {
        proof {
            assert(uris.deep_view().len() == 0);
        }
        return Err("No valid track URIs found in the playlist.".to_owned());
    }
    proof {
        assert(uris.deep_view().len() == uris@.len());
    }
    crate::shuffle::fisher_yates(&mut uris);
    Ok(uris)
}

/// The details handed back for a completed publish: the new playlist's id,
/// its name, and its public web address.
pub fn completed_details(new_playlist_id: String, name: String) -> (r:
    crate::models::NewPlaylistDetails)
    ensures
        r.id@ == new_playlist_id@,
        r.name@ == name@,
        r.external_url@ == "https://open.spotify.com/playlist/"@ + new_playlist_id@,
{
    let mut url = String::new();
    url.append("https://open.spotify.com/playlist/");
    url.append(new_playlist_id.as_str());
    crate::models::NewPlaylistDetails { id: new_playlist_id, name, external_url: url }
}

/// Close the workflow after the best-effort cover copy: whatever the cover
/// step's outcome was - success or any failure - the workflow completes with
/// the same details.  The cover step can never fail the workflow.
pub fn finish_with_cover_outcome(
    details: crate::models::NewPlaylistDetails,
    cover_outcome: Result<(), String>,
) -> (r: ShuffleStage)
    ensures
        r == ShuffleStage::Completed(details),
{
    let _ = cover_outcome;
    ShuffleStage::Completed(details)
}

} // verus!
