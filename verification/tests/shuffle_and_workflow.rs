use std::collections::HashMap;

use betterd_spotify::models::{NewPlaylistDetails, SpotifyArtistSimple, SpotifyTrackItem};
use betterd_spotify::shuffle::{extract_track_uris, fisher_yates};
use betterd_spotify::workflow::{
    completed_details, delay_after_batch, finish_with_cover_outcome, new_playlist_name,
    on_publish_outcome, on_tracks_fetched, plan_batches, playlist_description,
    prepare_shuffled_uris, retry_shuffle, start_shuffle, BatchInsertJob, ShuffleStage,
};

fn track_with_id(id: &str) -> SpotifyTrackItem {
    SpotifyTrackItem {
        id: Some(id.to_string()),
        uri: format!("spotify:track:{}", id),
        name: format!("track {}", id),
        artists: vec![SpotifyArtistSimple { id: None, name: "someone".to_string() }],
        album: None,
        duration_ms: None,
        explicit: None,
    }
}

fn track_without_id() -> SpotifyTrackItem {
    SpotifyTrackItem {
        id: None,
        uri: String::new(),
        name: "local file".to_string(),
        artists: Vec::new(),
        album: None,
        duration_ms: None,
        explicit: None,
    }
}

fn counts(v: &[String]) -> HashMap<String, usize> {
    let mut m = HashMap::new();
    for s in v {
        *m.entry(s.clone()).or_insert(0) += 1;
    }
    m
}

#[test]
fn uris_are_extracted_with_prefix_in_order() {
    let tracks = vec![track_with_id("aa"), track_without_id(), track_with_id("bb")];
    let uris = extract_track_uris(tracks);
    assert_eq!(uris, vec!["spotify:track:aa".to_string(), "spotify:track:bb".to_string()]);
}

#[test]
fn shuffle_is_a_permutation() {
    let mut uris: Vec<String> = (0..200).map(|i| format!("spotify:track:{:03}", i)).collect();
    let original = uris.clone();
    fisher_yates(&mut uris);
    assert_eq!(uris.len(), original.len());
    assert_eq!(counts(&uris), counts(&original));
}

#[test]
fn shuffle_positions_look_uniform() {
    // A sanity check, not an exactness proof: over many runs every element
    // should land in every position a plausible number of times.
    let n = 5;
    let runs = 2000;
    let mut tally = vec![vec![0usize; n]; n];
    for _ in 0..runs {
        let mut v: Vec<String> = (0..n).map(|i| i.to_string()).collect();
        fisher_yates(&mut v);
        for (pos, val) in v.iter().enumerate() {
            let idx: usize = val.parse().unwrap();
            tally[pos][idx] += 1;
        }
    }
    // Expected runs/n = 400 per cell; allow a generous tolerance.
    for row in &tally {
        for &cell in row {
            assert!(cell > 250 && cell < 550, "position tally {} is implausible", cell);
        }
    }
}

#[test]
fn batches_are_100_100_50_for_250_tracks() {
    let uris: Vec<String> = (0..250).map(|i| format!("u{}", i)).collect();
    let batches = plan_batches(uris.clone(), 100);
    assert_eq!(batches.len(), 3);
    assert_eq!(batches[0].len(), 100);
    assert_eq!(batches[1].len(), 100);
    assert_eq!(batches[2].len(), 50);
    let rejoined: Vec<String> = batches.concat();
    assert_eq!(rejoined, uris);
}

#[test]
fn exactly_two_delays_for_three_batches() {
    let count = 3;
    let delays = (0..count).filter(|&i| delay_after_batch(i, count)).count();
    assert_eq!(delays, 2);
    assert!(delay_after_batch(0, 3));
    assert!(delay_after_batch(1, 3));
    assert!(!delay_after_batch(2, 3));
}

#[test]
fn single_batch_sees_no_delay() {
    assert!(!delay_after_batch(0, 1));
}

#[test]
fn failed_batch_stops_the_job_without_rollback() {
    let uris: Vec<String> = (0..250).map(|i| format!("u{}", i)).collect();
    let batches = plan_batches(uris, 100);
    let mut job = BatchInsertJob::new(batches);

    // A mock upstream that accepts the first batch and rejects the second.
    let mut sent: Vec<Vec<String>> = Vec::new();
    while job.is_running() {
        let batch = job.current_batch().clone();
        let accept = sent.is_empty();
        sent.push(batch);
        job.on_batch_result(accept);
    }

    // Batch 2 failed: batch 3 was never sent, batch 1 stays applied.
    assert_eq!(sent.len(), 2);
    assert!(!job.is_running());
    assert!(!job.has_succeeded());
    assert_eq!(sent[0][0], "u0");
    assert_eq!(sent[1][0], "u100");
}

#[test]
fn all_batches_accepted_completes_the_job() {
    let uris: Vec<String> = (0..101).map(|i| format!("u{}", i)).collect();
    let mut job = BatchInsertJob::new(plan_batches(uris, 100));
    let mut sends = 0;
    while job.is_running() {
        let _ = job.current_batch();
        job.on_batch_result(true);
        sends += 1;
    }
    assert_eq!(sends, 2);
    assert!(job.has_succeeded());
}

#[test]
fn destination_name_and_description() {
    assert_eq!(new_playlist_name("Mix"), "Mix - TRUE SHUFFLED");
    assert_eq!(playlist_description("Mix"), "A true random shuffle of 'Mix'!");
}

#[test]
fn completed_details_carry_the_web_url() {
    let d = completed_details("pl99".to_string(), "Mix - TRUE SHUFFLED".to_string());
    assert_eq!(d.id, "pl99");
    assert_eq!(d.name, "Mix - TRUE SHUFFLED");
    assert_eq!(d.external_url, "https://open.spotify.com/playlist/pl99");
}

#[test]
fn empty_playlist_is_a_terminal_error() {
    let r = prepare_shuffled_uris(Vec::new(), "Mix");
    assert_eq!(r.unwrap_err(), "Playlist 'Mix' is empty.");
}

#[test]
fn playlist_without_usable_ids_is_a_terminal_error() {
    let r = prepare_shuffled_uris(vec![track_without_id()], "Mix");
    assert_eq!(r.unwrap_err(), "No valid track URIs found in the playlist.");
}

#[test]
fn prepared_uris_are_a_permutation_of_the_tracks() {
    let tracks: Vec<SpotifyTrackItem> =
        (0..40).map(|i| track_with_id(&format!("id{}", i))).collect();
    let expected: Vec<String> = (0..40).map(|i| format!("spotify:track:id{}", i)).collect();
    let uris = prepare_shuffled_uris(tracks, "Mix").unwrap();
    assert_eq!(counts(&uris), counts(&expected));
}

#[test]
fn stage_machine_walks_the_happy_path() {
    let stage = start_shuffle(ShuffleStage::Idle);
    assert!(matches!(stage, ShuffleStage::FetchingTracks));

    let tracks: Vec<SpotifyTrackItem> = (0..3).map(|i| track_with_id(&i.to_string())).collect();
    let (stage, cached) = on_tracks_fetched(Ok(tracks));
    match stage {
        ShuffleStage::ShufflingAndCreatingPlaylist { num_tracks_to_shuffle } => {
            assert_eq!(num_tracks_to_shuffle, 3)
        }
        _ => panic!("expected the shuffling stage"),
    }
    assert_eq!(cached.unwrap().len(), 3);

    let details = NewPlaylistDetails {
        id: "p".to_string(),
        name: "n".to_string(),
        external_url: "u".to_string(),
    };
    let stage = on_publish_outcome(Ok(details));
    match stage {
        ShuffleStage::Completed(d) => assert_eq!(d.id, "p"),
        _ => panic!("expected completion"),
    }
}

#[test]
fn empty_fetch_and_fetch_failure_are_errors() {
    let (stage, cached) = on_tracks_fetched(Ok(Vec::new()));
    match stage {
        ShuffleStage::Error(m) => {
            assert_eq!(m, "Selected playlist is empty or no tracks were found.")
        }
        _ => panic!("expected an error stage"),
    }
    assert!(cached.is_none());

    let (stage, _) = on_tracks_fetched(Err("boom".to_string()));
    match stage {
        ShuffleStage::Error(m) => assert_eq!(m, "Failed to fetch tracks: boom"),
        _ => panic!("expected an error stage"),
    }
}

#[test]
fn publish_failure_reports_and_retry_resets() {
    let stage = on_publish_outcome(Err("server said no".to_string()));
    match &stage {
        ShuffleStage::Error(m) => {
            assert_eq!(m, "Failed to shuffle and save playlist: server said no")
        }
        _ => panic!("expected an error stage"),
    }
    let stage = retry_shuffle(stage);
    assert!(matches!(stage, ShuffleStage::Idle));
}

#[test]
fn cover_failure_never_changes_completion() {
    let details = NewPlaylistDetails {
        id: "p7".to_string(),
        name: "Mix - TRUE SHUFFLED".to_string(),
        external_url: "https://open.spotify.com/playlist/p7".to_string(),
    };
    let stage = finish_with_cover_outcome(details, Err("404 fetching image".to_string()));
    match stage {
        ShuffleStage::Completed(d) => assert_eq!(d.id, "p7"),
        _ => panic!("the workflow must stay completed"),
    }

    let details = NewPlaylistDetails {
        id: "p7".to_string(),
        name: "Mix - TRUE SHUFFLED".to_string(),
        external_url: "https://open.spotify.com/playlist/p7".to_string(),
    };
    let stage = finish_with_cover_outcome(details, Ok(()));
    assert!(matches!(stage, ShuffleStage::Completed(_)));
}
