use betterd_spotify::features::{probe_track_ids, valid_feature_ids};
use betterd_spotify::imports::{import_counts, ImportStore};
use betterd_spotify::models::{SpotifyArtistSimple, SpotifyTrackItem};

fn track(id: Option<&str>, name: &str, artists: Vec<(&str, Option<&str>)>) -> SpotifyTrackItem {
    SpotifyTrackItem {
        id: id.map(|s| s.to_string()),
        uri: String::new(),
        name: name.to_string(),
        artists: artists
            .into_iter()
            .map(|(n, aid)| SpotifyArtistSimple { id: aid.map(|s| s.to_string()), name: n.to_string() })
            .collect(),
        album: None,
        duration_ms: None,
        explicit: None,
    }
}

#[test]
fn primary_artist_falls_back_when_absent() {
    let t = track(Some("t"), "Song", vec![]);
    assert_eq!(t.primary_artist(), "Unknown Artist");
    let t = track(Some("t"), "Song", vec![("Ana", None), ("Bob", None)]);
    assert_eq!(t.primary_artist(), "Ana");
}

#[test]
fn all_artists_joins_with_commas() {
    let t = track(Some("t"), "Song", vec![]);
    assert_eq!(t.all_artists(), "");
    let t = track(Some("t"), "Song", vec![("Ana", None)]);
    assert_eq!(t.all_artists(), "Ana");
    let t = track(Some("t"), "Song", vec![("Ana", None), ("Bob", None), ("Cyd", None)]);
    assert_eq!(t.all_artists(), "Ana, Bob, Cyd");
}

#[test]
fn display_name_pairs_title_and_artist() {
    let t = track(Some("t"), "Song", vec![("Ana", None)]);
    assert_eq!(t.display_name(), "Song - Ana");
    let t = track(Some("t"), "Song", vec![]);
    assert_eq!(t.display_name(), "Song - Unknown Artist");
}

#[test]
fn import_store_tracks_membership_per_user() {
    let mut store = ImportStore::new();
    assert!(!store.check_playlist_imported("u1", "p1"));
    store.mark_imported("u1".to_string(), "p1".to_string());
    store.mark_imported("u1".to_string(), "p1".to_string());
    store.mark_imported("u2".to_string(), "p2".to_string());
    assert!(store.check_playlist_imported("u1", "p1"));
    assert!(!store.check_playlist_imported("u1", "p2"));
    assert!(!store.check_playlist_imported("u2", "p1"));
    assert!(store.check_playlist_imported("u2", "p2"));
}

#[test]
fn import_status_answers_in_request_order() {
    let mut store = ImportStore::new();
    store.mark_imported("u1".to_string(), "a".to_string());
    store.mark_imported("u1".to_string(), "c".to_string());
    let status = store.get_playlist_import_status(
        "u1",
        &vec!["a".to_string(), "b".to_string(), "c".to_string()],
    );
    assert_eq!(
        status,
        vec![("a".to_string(), true), ("b".to_string(), false), ("c".to_string(), true)]
    );
}

#[test]
fn import_counts_tracks_and_artist_links() {
    let tracks = vec![
        track(Some("t1"), "one", vec![("Ana", Some("a1")), ("Bob", None)]),
        track(None, "local", vec![("Cyd", Some("a2"))]),
        track(Some("t2"), "two", vec![("Cyd", Some("a2")), ("Dee", Some("a3"))]),
    ];
    let (with_id, links) = import_counts(&tracks);
    assert_eq!(with_id, 2);
    // t1 brings one linked artist, t2 brings two; the id-less track none.
    assert_eq!(links, 3);
}

#[test]
fn feature_ids_drop_empties_and_cap_at_100() {
    let mut ids: Vec<String> = Vec::new();
    for i in 0..150 {
        ids.push(format!("id{}", i));
        ids.push(String::new());
    }
    let valid = valid_feature_ids(ids);
    assert_eq!(valid.len(), 100);
    assert_eq!(valid[0], "id0");
    assert_eq!(valid[99], "id99");
}

#[test]
fn probe_ids_take_the_first_ten_with_ids() {
    let mut tracks = vec![track(None, "skip", vec![])];
    for i in 0..15 {
        tracks.push(track(Some(&format!("t{}", i)), "x", vec![]));
    }
    let ids = probe_track_ids(tracks);
    assert_eq!(ids.len(), 10);
    assert_eq!(ids[0], "t0");
    assert_eq!(ids[9], "t9");
}
