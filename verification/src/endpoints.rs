//! The addresses and limits of the reference deployment.

use vstd::prelude::*;

verus! {

/// Where the user is asked to grant access.
pub const AUTHORIZE_ENDPOINT: &'static str = "https://accounts.spotify.com/authorize";

/// Where the provider sends the browser with the authorization code.
pub const REDIRECT_URI: &'static str = "http://localhost/auth/callback/spotify";

/// The scopes that reading the library and filling a playlist need.
pub const DESIRED_SCOPES: &'static str =
    "user-library-read playlist-modify-private playlist-read-private";

/// Where codes and refresh tokens are exchanged for tokens.
pub const TOKEN_ENDPOINT: &'static str = "https://accounts.spotify.com/api/token";

/// The collection of the user's saved tracks.
pub const SAVED_TRACKS_ENDPOINT: &'static str = "https://api.spotify.com/v1/me/tracks";

/// The collection of the user's playlists.
pub const PLAYLISTS_ENDPOINT: &'static str = "https://api.spotify.com/v1/users/me/playlists";

/// The port on which the redirect is awaited.
pub const REDIRECT_PORT: u16 = 80;

/// The largest page that the collection endpoints hand out.
pub const PAGE_SIZE: u8 = 50;

/// The largest number of tracks that one write request may carry.
pub const WRITE_CHUNK_SIZE: usize = 100;

/// The address of the tracks of the playlist `playlist_id`.
pub open spec fn playlist_tracks_address(playlist_id: Seq<char>) -> Seq<char> {
    "https://api.spotify.com/v1/playlists/"@ + playlist_id + "/tracks"@
}

/// Builds the address to which the tracks of a playlist are written.
pub fn playlist_tracks_url(playlist_id: &str) -> (url: String)
    ensures
        url@ == playlist_tracks_address(playlist_id@),
{
    let mut url = String::from_str("https://api.spotify.com/v1/playlists/");
    url.append(playlist_id);
    url.append("/tracks");
    url
}

} // verus!
