use betterd_spotify::endpoints::{
    add_tracks_url, create_playlist_url, playlist_url, playlists_page_url, profile_url,
    tracks_page_url, upload_image_url,
};
use betterd_spotify::pagination::{dedup_by_id, flatten_present_tracks, Pager, PagerStep};
use betterd_spotify::text::{parse_u32, u32_to_string};
use betterd_spotify::urls::{build_authorize_url, parse_cursor, percent_encode, query_param};

use betterd_spotify::models::{PlaylistItemTrackWrapper, SpotifyPlaylistItem, SpotifyTrackItem};

fn playlist(id: &str, name: &str) -> SpotifyPlaylistItem {
    SpotifyPlaylistItem {
        id: id.to_string(),
        name: name.to_string(),
        images: None,
        description: None,
        uri: format!("spotify:playlist:{}", id),
    }
}

fn track(id: Option<&str>, name: &str) -> SpotifyTrackItem {
    SpotifyTrackItem {
        id: id.map(|s| s.to_string()),
        uri: String::new(),
        name: name.to_string(),
        artists: Vec::new(),
        album: None,
        duration_ms: None,
        explicit: None,
    }
}

#[test]
fn parse_u32_accepts_plain_decimals() {
    assert_eq!(parse_u32("0"), Some(0));
    assert_eq!(parse_u32("123"), Some(123));
    assert_eq!(parse_u32("4294967295"), Some(u32::MAX));
}

#[test]
fn parse_u32_rejects_bad_input() {
    assert_eq!(parse_u32(""), None);
    assert_eq!(parse_u32("12a"), None);
    assert_eq!(parse_u32("-5"), None);
    assert_eq!(parse_u32("4294967296"), None);
    assert_eq!(parse_u32("99999999999999999999"), None);
}

#[test]
fn u32_to_string_renders_decimal() {
    assert_eq!(u32_to_string(0), "0");
    assert_eq!(u32_to_string(7), "7");
    assert_eq!(u32_to_string(1234), "1234");
    assert_eq!(u32_to_string(u32::MAX), "4294967295");
}

#[test]
fn query_param_finds_first_match() {
    let url = "https://api.spotify.com/v1/me/playlists?offset=50&limit=50&offset=99";
    assert_eq!(query_param(url, "offset"), Some("50".to_string()));
    assert_eq!(query_param(url, "limit"), Some("50".to_string()));
    assert_eq!(query_param(url, "missing"), None);
    assert_eq!(query_param("https://example.com/no-query", "offset"), None);
}

#[test]
fn cursor_requires_offset_and_limit() {
    assert_eq!(
        parse_cursor("https://api.spotify.com/v1/me/playlists?offset=100&limit=50"),
        Some((100, 50))
    );
    assert_eq!(parse_cursor("https://api.spotify.com/v1/me/playlists?limit=50"), None);
    assert_eq!(parse_cursor("https://api.spotify.com/v1/me/playlists?offset=100"), None);
    assert_eq!(parse_cursor("https://api.spotify.com/v1/me/playlists?offset=abc&limit=50"), None);
}

#[test]
fn pager_collects_three_pages_in_order() {
    // Three pages of 50/50/7 items with correctly chaining cursors.
    let mut pager: Pager<u32> = Pager::new(50, 0);
    let all: Vec<u32> = (0..107).collect();

    let (limit, offset) = pager.request();
    assert_eq!((limit, offset), (50, 0));
    let page1: Vec<u32> = all[0..50].to_vec();
    let step = pager.on_page(
        page1,
        Some("https://api.spotify.com/v1/me/playlists?offset=50&limit=50"),
    );
    assert!(matches!(step, PagerStep::Continue { limit: 50, offset: 50 }));

    let (limit, offset) = pager.request();
    assert_eq!((limit, offset), (50, 50));
    let page2: Vec<u32> = all[50..100].to_vec();
    let step = pager.on_page(
        page2,
        Some("https://api.spotify.com/v1/me/playlists?offset=100&limit=50"),
    );
    assert!(matches!(step, PagerStep::Continue { limit: 50, offset: 100 }));

    let page3: Vec<u32> = all[100..107].to_vec();
    let step = pager.on_page(page3, None);
    assert!(matches!(step, PagerStep::Done));

    let items = pager.into_items();
    assert_eq!(items.len(), 107);
    assert_eq!(items, all);
}

#[test]
fn pager_fails_on_cursor_without_offset() {
    let mut pager: Pager<u32> = Pager::new(50, 0);
    let step = pager.on_page(
        vec![1, 2, 3],
        Some("https://api.spotify.com/v1/me/playlists?limit=50"),
    );
    assert!(matches!(step, PagerStep::MalformedCursor));
}

#[test]
fn pager_fails_on_unparsable_offset() {
    let mut pager: Pager<u32> = Pager::new(50, 0);
    let step = pager.on_page(
        vec![1],
        Some("https://api.spotify.com/v1/me/playlists?offset=zz&limit=50"),
    );
    assert!(matches!(step, PagerStep::MalformedCursor));
}

#[test]
fn dedup_keeps_first_occurrence_in_order() {
    let items = vec![
        playlist("a", "first"),
        playlist("b", "second"),
        playlist("a", "dup-of-first"),
        playlist("c", "third"),
        playlist("b", "dup-of-second"),
    ];
    let out = dedup_by_id(items);
    let ids: Vec<&str> = out.iter().map(|p| p.id.as_str()).collect();
    assert_eq!(ids, vec!["a", "b", "c"]);
    assert_eq!(out[0].name, "first");
    assert_eq!(out[1].name, "second");
}

#[test]
fn wrapperless_tracks_are_dropped() {
    let items = vec![
        PlaylistItemTrackWrapper { track: Some(track(Some("t1"), "one")) },
        PlaylistItemTrackWrapper { track: None },
        PlaylistItemTrackWrapper { track: Some(track(None, "two")) },
    ];
    let tracks = flatten_present_tracks(items);
    assert_eq!(tracks.len(), 2);
    assert_eq!(tracks[0].name, "one");
    assert_eq!(tracks[1].name, "two");
}

#[test]
fn percent_encoding_keeps_unreserved_bytes() {
    assert_eq!(percent_encode("AZaz09-._~"), "AZaz09-._~");
    assert_eq!(percent_encode("a b/c"), "a%20b%2Fc");
    assert_eq!(percent_encode("x=y&z"), "x%3Dy%26z");
}

#[test]
fn percent_encoding_uses_utf8_bytes() {
    assert_eq!(percent_encode("\u{e9}"), "%C3%A9");
}

#[test]
fn authorize_url_is_assembled_and_encoded() {
    let url = build_authorize_url(
        "my-client",
        "scope one",
        "https://app.example/callback",
        "State1234State16",
        "challengechallengechallengechallengechallenge",
    );
    assert_eq!(
        url,
        "https://accounts.spotify.com/authorize?response_type=code&client_id=my-client\
         &scope=scope%20one&redirect_uri=https%3A%2F%2Fapp.example%2Fcallback\
         &state=State1234State16&code_challenge_method=S256\
         &code_challenge=challengechallengechallengechallengechallenge"
    );
}

#[test]
fn endpoint_urls_match_the_upstream_surface() {
    assert_eq!(profile_url(), "https://api.spotify.com/v1/me");
    assert_eq!(
        playlists_page_url(50, 100),
        "https://api.spotify.com/v1/me/playlists?limit=50&offset=100"
    );
    assert_eq!(playlist_url("p1"), "https://api.spotify.com/v1/playlists/p1");
    assert_eq!(create_playlist_url("u9"), "https://api.spotify.com/v1/users/u9/playlists");
    assert_eq!(add_tracks_url("p1"), "https://api.spotify.com/v1/playlists/p1/tracks");
    assert_eq!(upload_image_url("p1"), "https://api.spotify.com/v1/playlists/p1/images");
}

#[test]
fn tracks_page_url_carries_encoded_fields() {
    let url = tracks_page_url("p42", 50, 0);
    assert_eq!(
        url,
        "https://api.spotify.com/v1/playlists/p42/tracks?offset=0&limit=50&fields=\
         items%28track%28id%2Cname%2Curi%2Cartists%28id%2Cname%29%29%29%2Climit%2Coffset%2Ctotal%2Cnext"
    );
}
