//! The shapes of the upstream payloads this service consumes and produces.
//! Transport hands these in as plain values; the library's logic works on
//! them.

use vstd::prelude::*;

verus! {

/// The provider's answer to a code exchange or refresh.
#[derive(Debug)]
pub struct SpotifyTokenResponse {
    pub access_token: String,
    pub token_type: String,
    pub scope: String,
    pub expires_in: u64,
    pub refresh_token: Option<String>,
}

/// The current user's profile.
#[derive(Debug)]
pub struct SpotifyUserProfile {
    pub display_name: String,
    pub id: String,
    pub images: Option<Vec<SpotifyImageObject>>,
}

/// One cover image.
#[derive(Debug)]
pub struct SpotifyImageObject {
    pub url: String,
    pub height: Option<u32>,
    pub width: Option<u32>,
}

/// One playlist, as the upstream listing returns it.
#[derive(Debug)]
pub struct SpotifyPlaylistItem {
    pub id: String,
    pub name: String,
    pub images: Option<Vec<SpotifyImageObject>>,
    pub description: Option<String>,
    pub uri: String,
}

/// One page of the current user's playlists.
#[derive(Debug)]
pub struct SpotifyPlaylistsResponse {
    pub items: Vec<SpotifyPlaylistItem>,
    pub href: String,
    pub limit: u32,
    pub next: Option<String>,
    pub offset: u32,
    pub previous: Option<String>,
    pub total: u32,
}

/// One page of a playlist's tracks.
#[derive(Debug)]
pub struct SpotifyPlaylistTrackResponse {
    pub items: Vec<PlaylistItemTrackWrapper>,
    pub limit: u32,
    pub next: Option<String>,
    pub offset: u32,
    pub previous: Option<String>,
    pub total: u32,
}

/// The wrapper around each entry of a tracks page; the track itself can be
/// absent.
#[derive(Debug)]
pub struct PlaylistItemTrackWrapper {
    pub track: Option<SpotifyTrackItem>,
}

/// One track.
#[derive(Debug)]
pub struct SpotifyTrackItem {
    pub id: Option<String>,
    pub uri: String,
    pub name: String,
    pub artists: Vec<SpotifyArtistSimple>,
    pub album: Option<SpotifyTrackAlbumSimple>,
    pub duration_ms: Option<u32>,
    pub explicit: Option<bool>,
}

/// The album of a track, reduced.
#[derive(Debug)]
pub struct SpotifyTrackAlbumSimple {
    pub id: Option<String>,
    pub name: String,
    pub images: Option<Vec<SpotifyImageObject>>,
}

/// One artist, reduced.
#[derive(Debug)]
pub struct SpotifyArtistSimple {
    pub id: Option<String>,
    pub name: String,
}

/// What a finished shuffle hands back to the user: the new playlist and its
/// web address.
#[derive(Debug)]
pub struct NewPlaylistDetails {
    pub id: String,
    pub name: String,
    pub external_url: String,
}

// ---------------------------------------------------------------------------
// Track display helpers
// ---------------------------------------------------------------------------

/// The name of the first artist, or a placeholder when there is none.
pub open spec fn primary_artist_spec(t: SpotifyTrackItem) -> Seq<char> {
    if t.artists@.len() == 0 {
        "Unknown Artist"@
    } else {
        t.artists@[0].name@
    }
}

/// All artist names joined with a comma and a space.
pub open spec fn joined_artists(artists: Seq<SpotifyArtistSimple>) -> Seq<char>
    decreases artists.len(),
{
    if artists.len() == 0 {
        Seq::<char>::empty()
    } else if artists.len() == 1 {
        artists[0].name@
    } else {
        joined_artists(artists.drop_last()) + ", "@ + artists.last().name@
    }
}

impl SpotifyTrackItem {
    /// The primary artist's name.
    pub fn primary_artist(&self) -> (r: String)
        ensures
            r@ == primary_artist_spec(*self),
    {
        if self.artists.len() == 0 {
            let r = "Unknown Artist".to_owned();
            r
        } else {
            crate::text::clone_string(&self.artists[0].name)
        }
    }

    /// All artist names, joined.
    pub fn all_artists(&self) -> (r: String)
        ensures
            r@ == joined_artists(self.artists@),
    {
        let mut out = String::new();
        let mut i: usize = 0;
        while i < self.artists.len()
            invariant
                0 <= i <= self.artists@.len(),
                out@ == joined_artists(self.artists@.subrange(0, i as int)),
            decreases self.artists@.len() - i,
        {
            if i > 0 {
                out.append(", ");
            }
            out.append(self.artists[i].name.as_str());
            proof {
                let cur = self.artists@.subrange(0, i as int + 1);
                assert(cur.drop_last() =~= self.artists@.subrange(0, i as int));
                assert(cur.last() == self.artists@[i as int]);
                assert(out@ =~= joined_artists(cur));
            }
            i = i + 1;
        }
        proof {
            assert(self.artists@.subrange(0, self.artists@.len() as int) =~= self.artists@);
        }
        out
    }

    /// A display string: the track's name and its primary artist.
    pub fn display_name(&self) -> (r: String)
        ensures
            r@ == self.name@ + " - "@ + primary_artist_spec(*self),
    {
        let mut out = crate::text::clone_string(&self.name);
        out.append(" - ");
        let artist = self.primary_artist();
        out.append(artist.as_str());
        out
    }
}

} // verus!
