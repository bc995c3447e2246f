//! The records that the service's collection endpoints answer with.

use vstd::prelude::*;

verus! {

#[derive(Debug)]
pub struct TrackRestrictionObject {
    /// The reason for the restriction. Supported values:
    /// - `market` - The content item is not available in the given market.
    /// - `product` - The content item is not available for the user’s subscription type.
    /// - `explicit` - The content item is explicit and the user’s account is set to not play explicit content.
    /// Additional reasons may be added in the future.
    /// **Note**: If you use this field, make sure that your application safely handles unknown values.
    pub reason: Option<String>,
}

#[derive(Debug)]
pub struct LinkedTrackObject {
    /// Known external URLs for this track.
    pub external_urls: Option<ExternalUrlObject>,
    /// A link to the Web API endpoint providing full details of the track.
    pub href: Option<String>,
    /// The [Spotify ID](https://developer.spotify.com/documentation/web-api/#spotify-uris-and-ids) for the track.
    pub id: Option<String>,
    /// The object type: “track”.
    pub kind: Option<String>,
    /// The [Spotify URI](https://developer.spotify.com/documentation/web-api/#spotify-uris-and-ids) for the track.
    pub uri: Option<String>,
}

#[derive(Debug)]
pub struct ExternalIdObject {
    /// [International Article Number](http://en.wikipedia.org/wiki/International_Article_Number_%28EAN%29)
    pub ean: Option<String>,
    /// [International Standard Recording Code](http://en.wikipedia.org/wiki/International_Standard_Recording_Code)
    pub isrc: Option<String>,
    /// [Universal Product Code](http://en.wikipedia.org/wiki/Universal_Product_Code)
    pub upc: Option<String>,
}

#[derive(Debug)]
pub struct FollowersObject {
    /// A link to the Web API endpoint providing full details of the followers; null if not available.
    /// Please note that this will always be set to null, as the Web API does not support it at the moment.
    pub href: Option<String>,
    /// The total number of followers.
    pub total: Option<usize>,
}

#[derive(Debug)]
pub struct ArtistObject {
    /// Known external URLs for this artist.
    pub external_urls: Option<ExternalUrlObject>,
    /// Information about the followers of the artist.
    pub followers: Option<FollowersObject>,
    /// A list of the genres the artist is associated with.
    /// For example: `"Prog Rock"`, `"Post-Grunge"`. (If not yet classified, the array is empty).
    pub genres: Option<Vec<String>>,
    /// A link to the Web API endpoint providing full details of the artist.
    pub href: Option<String>,
    /// The [Spotify ID](https://developer.spotify.com/documentation/web-api/#spotify-uris-and-ids) for the artist.
    pub id: Option<String>,
    /// Images of the artist in various sizes, widest first.
    pub images: Option<Vec<ImageObject>>,
    /// The name of the artist.
    pub name: String,
    /// The popularity of the artist.
    /// The value will be between 0 and 100, with 100 being the most popular.
    /// The artist’s popularity is calculated from the popularity of all the artist’s tracks.
    pub popularity: Option<u8>,
    /// The object type: "artist".
    pub kind: Option<String>,
    /// The [Spotify URI](https://developer.spotify.com/documentation/web-api/#spotify-uris-and-ids) for the artist.
    pub uri: Option<String>,
}

#[derive(Debug)]
pub struct AlbumRestrictionObject {
    /// The reason for the restriction. Supported values:
    /// - `market` - The content item is not available in the given market.
    /// - `product` - The content item is not available for the user’s subscription type.
    /// - `explicit` - The content item is explicit and the user’s account is set to not play explicit content.
    /// Additional reasons may be added in the future.
    /// **Note**: If you use this field, make sure that your application safely handles unknown values.
    pub reason: Option<String>,
}

#[derive(Debug)]
pub struct ImageObject {
    /// The image height in pixels. If unknown: `null` or not returned.
    pub height: Option<usize>,
    /// The source URL of the image.
    pub url: Option<String>,
    /// The image width in pixels. If unknown: `null` or not returned.
    pub width: Option<usize>,
}

#[derive(Debug)]
pub struct ExternalUrlObject {
    /// The [Spotify URL](https://developer.spotify.com/documentation/web-api/#spotify-uris-and-ids) for the object.
    pub spotify: Option<String>,
}

#[derive(Debug)]
pub struct SimplifiedArtistObject {
    /// Known external URLs for this artist.
    pub external_urls: Option<ExternalUrlObject>,
    /// A link to the Web API endpoint providing full details of the artist.
    pub href: Option<String>,
    /// The [Spotify ID](https://developer.spotify.com/documentation/web-api/#spotify-uris-and-ids) for the artist.
    pub id: Option<String>,
    /// The name of the artist.
    pub name: Option<String>,
    /// The object type: "artist".
    pub kind: Option<String>,
    /// The [Spotify URI](https://developer.spotify.com/documentation/web-api/#spotify-uris-and-ids) for the artist.
    pub uri: Option<String>,
}

#[derive(Debug)]
pub struct SimplifiedAlbumObject {
    /// The field is present when getting an artist’s albums.
    /// Possible values are “album”, “single”, “compilation”, “appears_on”.
    /// Compare to album_type this field represents relationship between the artist and the album.
    pub album_group: Option<String>,
    /// The type of the album: one of “album”, “single”, or “compilation”.
    pub album_type: Option<String>,
    /// The artists of the album.
    /// Each artist object includes a link in `href` to more detailed information about the artist.
    pub artists: Option<Vec<SimplifiedArtistObject>>,
    /// The markets in which the album is available: [ISO 3166-1 alpha-2 country codes](http://en.wikipedia.org/wiki/ISO_3166-1_alpha-2). Note that an album is considered available in a market when at least 1 of its tracks is available in that market.
    pub available_markets: Option<Vec<String>>,
    /// Known external URLs for this album.
    pub external_urls: Option<ExternalUrlObject>,
    /// A link to the Web API endpoint providing full details of the album.
    pub href: Option<String>,
    /// The [Spotify ID](https://developer.spotify.com/documentation/web-api/#spotify-uris-and-ids) for the album.
    pub id: Option<String>,
    /// The cover art for the album in various sizes, widest first.
    pub images: Option<Vec<ImageObject>>,
    /// The name of the album. In case of an album takedown, the value may be an empty string.
    pub name: Option<String>,
    /// The date the album was first released, for example `1981`. Depending on the precision, it might be shown as `1981-12` or `1981-12-15`.
    pub release_date: Option<String>,
    /// The precision with which `release_date` value is known: `year`, `month`, or `day`.
    pub release_date_precision: Option<String>,
    /// Included in the response when a content restriction is applied. See [Restriction Object](https://developer.spotify.com/documentation/web-api/reference/#object-albumrestrictionobject) for more details.
    pub restrictions: Option<AlbumRestrictionObject>,
    /// The object type: “album”.
    pub kind: Option<String>,
    /// The [Spotify URI](https://developer.spotify.com/documentation/web-api/#spotify-uris-and-ids) for the album.
    pub uri: Option<String>,
}

#[derive(Debug)]
pub struct TrackObject {
    /// The album on which the track appears.
    /// The album object includes a link in `href` to full information about the album.
    pub album: Option<SimplifiedAlbumObject>,
    /// The artists who performed the track.
    /// Each artist object includes a link in `href` to more detailed information about the artist.
    pub artists: Vec<ArtistObject>,
    /// A list of the countries in which the track can be played, identified by their [ISO 3166-1 alpha-2](http://en.wikipedia.org/wiki/ISO_3166-1_alpha-2) code.
    pub available_markets: Option<Vec<String>>,
    /// The disc number (usually `1` unless the album consists of more than one disc).
    pub disc_number: Option<u8>,
    /// The track length in milliseconds.
    pub duration_ms: Option<usize>,
    /// Whether or not the track has explicit lyrics (`true` = yes it does; `false` = no it does not OR unknown).
    pub explicit: Option<bool>,
    /// Known external IDs for the track.
    pub external_ids: Option<ExternalIdObject>,
    /// Known external URLs for this track.
    pub external_urls: Option<ExternalUrlObject>,
    /// A link to the Web API endpoint providing full details of the track.
    pub href: Option<String>,
    /// The [Spotify ID](https://developer.spotify.com/documentation/web-api/#spotify-uris-and-ids) for the track.
    pub id: Option<String>,
    /// Whether or not the track is from a local file.
    pub is_local: Option<bool>,
    /// Part of the response when [Track Relinking](https://developer.spotify.com/documentation/general/guides/track-relinking-guide/) is applied.
    /// If `true`, the track is playable in the given market. Otherwise `false`.
    pub is_playable: Option<bool>,
    /// Part of the response when [Track Relinking](https://developer.spotify.com/documentation/general/guides/track-relinking-guide/) is applied, and the requested track has been replaced with different track.
    /// The track in the `linked_from` object contains information about the originally requested track.
    pub linked_from: Option<LinkedTrackObject>,
    /// The name of the track.
    pub name: String,
    /// The popularity of the track.
    /// The value will be between 0 and 100, with 100 being the most popular.
    /// The popularity is calculated by algorithm and is based, in the most part,
    /// on the total number of plays the track has had and how recent those plays are.
    /// Generally speaking, songs that are being played a lot now will have a higher popularity than songs that were played a lot in the past.
    /// Duplicate tracks (e.g. the same track from a single and an album) are rated independently.
    /// Artist and album popularity is derived mathematically from track popularity.
    /// Note that the popularity value may lag actual popularity by a few days: the value is not updated in real time.
    pub popularity: Option<u8>,
    /// A link to a 30 second preview (MP3 format) of the track. Can be `null`.
    pub preview_url: Option<String>,
    /// Included in the response when a content restriction is applied. See [Restriction Object](https://developer.spotify.com/documentation/web-api/reference/#object-trackrestrictionobject) for more details.
    pub restrictions: Option<TrackRestrictionObject>,
    /// The number of the track. If an album has several discs, the track number is the number on the specified disc.
    pub track_number: Option<u8>,
    /// The object type: “track”.
    pub kind: Option<String>,
    /// The [Spotify URI](https://developer.spotify.com/documentation/web-api/#spotify-uris-and-ids) for the track.
    pub uri: Option<String>,
}

#[derive(Debug)]
pub struct SavedTrackObject {
    /// The date and time the track was saved.
    /// Timestamps are returned in ISO 8601 format as Coordinated Universal Time (UTC) with a zero offset: YYYY-MM-DDTHH:MM:SSZ.
    /// If the time is imprecise (for example, the date/time of an album release), an additional field indicates the precision;
    /// see for example, release_date in an album object.
    /// Held as whole seconds since the Unix epoch, in UTC.
    pub added_at: Option<i64>,
    /// Information about the track.
    pub track: TrackObject,
}

#[derive(Debug)]
pub struct SimplifiedPlaylistObject {
    /// `true` if the owner allows other users to modify the playlist.
    pub collaborative: Option<bool>,
    /// The playlist description. Only returned for modified, verified playlists, otherwise `null`.
    pub description: Option<String>,
    /// Known external URLs for this playlist.
    pub external_urls: Option<ExternalUrlObject>,
    /// A link to the Web API endpoint providing full details of the playlist.
    pub href: Option<String>,
    /// The [Spotify ID](https://developer.spotify.com/documentation/web-api/#spotify-uris-and-ids) for the playlist.
    pub id: String,
    /// Images for the playlist. The array may be empty or contain up to three images.
    pub images: Option<Vec<ImageObject>>,
    /// The name of the playlist.
    pub name: String,
    /// The playlist's public/private status: `true` the playlist is public, `false` the playlist is private,
    /// `null` the playlist status is not relevant.
    pub public: Option<bool>,
    /// The version identifier for the current playlist.
    pub snapshot_id: Option<String>,
    /// The object type: "playlist".
    pub kind: Option<String>,
    /// The [Spotify URI](https://developer.spotify.com/documentation/web-api/#spotify-uris-and-ids) for the playlist.
    pub uri: Option<String>,
}

#[derive(Debug)]
pub struct PagingObject<T> {
    /// A link to the Web API endpoint returning the full result of the request.
    pub href: Option<String>,
    /// The requested data.
    pub items: Vec<T>,
    /// The maximum number of items in the response (as set in the query or by default).
    pub limit: u8,
    /// URL to the next page of items. (`null` if none).
    pub next: Option<String>,
    /// The offset of the items returned (as set in the query or by default).
    pub offset: usize,
    /// URL to the previous page of items. (`null` if none)
    pub previous: Option<String>,
    /// The total number of items available to return.
    pub total: usize,
}

/// The part of a page that pagination reads.
pub ghost struct PageView<T> {
    /// The items of the page, in the order in which the service sent them.
    pub items: Seq<T>,
    /// The limit that the service applied to the request.
    pub limit: nat,
    /// How many items the whole collection holds.
    pub total: nat,
}

impl<T> View for PagingObject<T> {
    type V = PageView<T>;

    open spec fn view(&self) -> PageView<T> {
        PageView { items: self.items@, limit: self.limit as nat, total: self.total as nat }
    }
}

/// The addresses of the tracks in `tracks` that have one, in order.
pub open spec fn uris_of(tracks: Seq<SavedTrackObject>) -> Seq<String>
    decreases tracks.len(),
{
    if tracks.len() == 0 {
        Seq::empty()
    } else {
        let before = uris_of(tracks.drop_last());
        match tracks.last().track.uri {
            Some(uri) => before.push(uri),
            None => before,
        }
    }
}

/// Collects the Spotify URIs of the saved tracks, in order. A track
/// without a URI cannot be written to a playlist and is left out.
pub fn saved_track_uris(tracks: &Vec<SavedTrackObject>) -> (uris: Vec<String>)
    ensures
        uris@ == uris_of(tracks@),
{
    let mut uris: Vec<String> = Vec::new();
    let mut i: usize = 0;
    while i < tracks.len()
        invariant
            i <= tracks@.len(),
            uris@ == uris_of(tracks@.take(i as int)),
        decreases tracks@.len() - i,
    {
        assert(tracks@.take(i + 1).drop_last() =~= tracks@.take(i as int));
        match &tracks[i].track.uri {
            Some(uri) => {
                uris.push(uri.clone());
            },
            None => {},
        }
        i += 1;
    }
    assert(tracks@.take(tracks@.len() as int) =~= tracks@);
    uris
}

} // verus!
