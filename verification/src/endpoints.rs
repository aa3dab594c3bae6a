//! The upstream REST surface: every URL this service requests, built from
//! plain values, with the numeric paging parameters rendered in decimal and
//! the field projection percent-encoded.

use vstd::prelude::*;

verus! {

/// The current user's profile endpoint.
pub fn profile_url() -> (r: String)
    ensures
        r@ == "https://api.spotify.com/v1/me"@,
{
    "https://api.spotify.com/v1/me".to_owned()
}

/// One page of the current user's playlists.
pub fn playlists_page_url(limit: u32, offset: u32) -> (r: String)
    ensures
        r@ == "https://api.spotify.com/v1/me/playlists?limit="@ + crate::text::dec_digits(
            limit as int,
        ) + "&offset="@ + crate::text::dec_digits(offset as int),
{
    let mut url = String::new();
    url.append("https://api.spotify.com/v1/me/playlists?limit=");
    url.append(crate::text::u32_to_string(limit).as_str());
    url.append("&offset=");
    url.append(crate::text::u32_to_string(offset).as_str());
    proof {
        assert(url@ =~= "https://api.spotify.com/v1/me/playlists?limit="@ + crate::text::dec_digits(
            limit as int,
        ) + "&offset="@ + crate::text::dec_digits(offset as int));
    }
    url
}

/// The field projection the tracks pages are fetched with.
pub fn track_page_fields() -> (r: &'static str)
    ensures
        r@ == "items(track(id,name,uri,artists(id,name))),limit,offset,total,next"@,
{
    "items(track(id,name,uri,artists(id,name))),limit,offset,total,next"
}

/// One page of a playlist's tracks, with the field projection.
pub fn tracks_page_url(playlist_id: &str, limit: u32, offset: u32) -> (r: String)
    ensures
        r@ == "https://api.spotify.com/v1/playlists/"@ + playlist_id@ + "/tracks?offset="@
            + crate::text::dec_digits(offset as int) + "&limit="@ + crate::text::dec_digits(
            limit as int,
        ) + "&fields="@ + crate::urls::pct_chars(
            "items(track(id,name,uri,artists(id,name))),limit,offset,total,next"@,
        ),
{
    let mut url = String::new();
    url.append("https://api.spotify.com/v1/playlists/");
    url.append(playlist_id);
    url.append("/tracks?offset=");
    url.append(crate::text::u32_to_string(offset).as_str());
    url.append("&limit=");
    url.append(crate::text::u32_to_string(limit).as_str());
    url.append("&fields=");
    url.append(crate::urls::percent_encode(track_page_fields()).as_str());
    proof {
        assert(url@ =~= "https://api.spotify.com/v1/playlists/"@ + playlist_id@ + "/tracks?offset="@
            + crate::text::dec_digits(offset as int) + "&limit="@ + crate::text::dec_digits(
            limit as int,
        ) + "&fields="@ + crate::urls::pct_chars(
            "items(track(id,name,uri,artists(id,name))),limit,offset,total,next"@,
        ));
    }
    url
}

/// One playlist's details.
pub fn playlist_url(playlist_id: &str) -> (r: String)
    ensures
        r@ == "https://api.spotify.com/v1/playlists/"@ + playlist_id@,
{
    let mut url = String::new();
    url.append("https://api.spotify.com/v1/playlists/");
    url.append(playlist_id);
    url
}

/// Create a playlist owned by `user_id`.
pub fn create_playlist_url(user_id: &str) -> (r: String)
    ensures
        r@ == "https://api.spotify.com/v1/users/"@ + user_id@ + "/playlists"@,
{
    let mut url = String::new();
    url.append("https://api.spotify.com/v1/users/");
    url.append(user_id);
    url.append("/playlists");
    proof {
        assert(url@ =~= "https://api.spotify.com/v1/users/"@ + user_id@ + "/playlists"@);
    }
    url
}

/// Add tracks to playlist `playlist_id`.
pub fn add_tracks_url(playlist_id: &str) -> (r: String)
    ensures
        r@ == "https://api.spotify.com/v1/playlists/"@ + playlist_id@ + "/tracks"@,
{
    let mut url = String::new();
    url.append("https://api.spotify.com/v1/playlists/");
    url.append(playlist_id);
    url.append("/tracks");
    proof {
        assert(url@ =~= "https://api.spotify.com/v1/playlists/"@ + playlist_id@ + "/tracks"@);
    }
    url
}

/// Replace the cover image of playlist `playlist_id`.
pub fn upload_image_url(playlist_id: &str) -> (r: String)
    ensures
        r@ == "https://api.spotify.com/v1/playlists/"@ + playlist_id@ + "/images"@,
{
    let mut url = String::new();
    url.append("https://api.spotify.com/v1/playlists/");
    url.append(playlist_id);
    url.append("/images");
    proof {
        assert(url@ =~= "https://api.spotify.com/v1/playlists/"@ + playlist_id@ + "/images"@);
    }
    url
}

/// What the create-playlist call sends: the destination is always private.
pub struct CreatePlaylistRequest {
    pub url: String,
    pub name: String,
    pub public: bool,
    pub description: String,
}

/// Describe the create-playlist call for the transport: the new playlist
/// carries the given name and description and is not public.
pub fn create_playlist_request(user_id: &str, name: String, description: String) -> (r:
    CreatePlaylistRequest)
    ensures
        r.url@ == "https://api.spotify.com/v1/users/"@ + user_id@ + "/playlists"@,
        r.name == name,
        !r.public,
        r.description == description,
{
    CreatePlaylistRequest { url: create_playlist_url(user_id), name, public: false, description }
}

} // verus!
