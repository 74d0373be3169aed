//! Request planning: the API's endpoint URLs and request payloads as plain
//! values. The surrounding process turns one of these plans into an actual
//! HTTP exchange; nothing here performs I/O.

use vstd::prelude::*;
use vstd::string::*;
use crate::errors::SpotifyError;
use crate::text::{spec_dec, spec_join_sep, join_with, u64_to_string};

verus! {

/// Base of the API's HTTP surface.
pub const API_URL: &'static str = "https://api.spotify.com/v1";

/// The HTTP method of a planned request.
#[derive(Debug, Clone, Copy, PartialEq, Eq, Structural)]
pub enum HttpMethod {
    Get,
    Post,
    Put,
}

/// One planned API request: method, full URL, and the track URIs carried
/// in the body, when the endpoint takes them.
#[derive(Debug, Clone, PartialEq)]
pub struct ApiRequest {
    /// The HTTP method to use.
    pub method: HttpMethod,
    /// The full request URL.
    pub url: String,
    /// The `uris` array of the JSON body, for append and replace writes.
    pub uris_body: Option<Vec<String>>,
}

/// The view of the API base.
pub open spec fn spec_api_url() -> Seq<char> {
    "https://api.spotify.com/v1"@
}

/// The URL that lists one page of a playlist, asking for full track fields.
pub open spec fn spec_tracks_page_url(playlist_id: Seq<char>, offset: int) -> Seq<char> {
    spec_api_url() + "/playlists/"@ + playlist_id + "/tracks?offset="@ + spec_dec(offset as nat)
        + "&limit=100&fields=items(track(id,uri,name,artists(name),album(name),duration_ms,popularity,preview_url,explicit))"@
}

/// Build the playlist page URL for one offset.
pub fn tracks_page_url(playlist_id: &str, offset: u64) -> (r: String)
    ensures
        r@ == spec_tracks_page_url(playlist_id@, offset as int),
{
    let mut url = String::from_str(API_URL);
    url.append("/playlists/");
    url.append(playlist_id);
    url.append("/tracks?offset=");
    let off = u64_to_string(offset);
    url.append(off.as_str());
    url.append(
        "&limit=100&fields=items(track(id,uri,name,artists(name),album(name),duration_ms,popularity,preview_url,explicit))",
    );
    url
}

/// The playlist page URL asking only for each entry's URI, for the
/// duplicate check.
pub open spec fn spec_uris_page_url(playlist_id: Seq<char>, offset: int) -> Seq<char> {
    spec_api_url() + "/playlists/"@ + playlist_id + "/tracks?offset="@ + spec_dec(offset as nat)
        + "&limit=100&fields=items(track(uri))"@
}

/// Build the URI-only playlist page URL for one offset.
pub fn uris_page_url(playlist_id: &str, offset: u64) -> (r: String)
    ensures
        r@ == spec_uris_page_url(playlist_id@, offset as int),
{
    let mut url = String::from_str(API_URL);
    url.append("/playlists/");
    url.append(playlist_id);
    url.append("/tracks?offset=");
    let off = u64_to_string(offset);
    url.append(off.as_str());
    url.append("&limit=100&fields=items(track(uri))");
    url
}

/// The URL of one track's metadata.
pub open spec fn spec_track_url(track_id: Seq<char>) -> Seq<char> {
    spec_api_url() + "/tracks/"@ + track_id
}

/// Build the track-metadata URL.
pub fn track_url(track_id: &str) -> (r: String)
    ensures
        r@ == spec_track_url(track_id@),
{
    let mut url = String::from_str(API_URL);
    url.append("/tracks/");
    url.append(track_id);
    url
}

/// The URL of a playlist's tracks collection, used by append and replace.
pub open spec fn spec_playlist_tracks_url(playlist_id: Seq<char>) -> Seq<char> {
    spec_api_url() + "/playlists/"@ + playlist_id + "/tracks"@
}

/// Build the playlist tracks-collection URL.
pub fn playlist_tracks_url(playlist_id: &str) -> (r: String)
    ensures
        r@ == spec_playlist_tracks_url(playlist_id@),
{
    let mut url = String::from_str(API_URL);
    url.append("/playlists/");
    url.append(playlist_id);
    url.append("/tracks");
    url
}

/// A query text with every space replaced by `%20`.
pub open spec fn spec_encode_spaces(s: Seq<char>) -> Seq<char>
    decreases s.len(),
{
    if s.len() == 0 {
        Seq::empty()
    } else {
        spec_encode_spaces(s.drop_last()) + (if s.last() == ' ' {
            "%20"@
        } else {
            seq![s.last()]
        })
    }
}

/// Replace each space of a query with `%20`.
pub fn encode_spaces(s: &str) -> (r: String)
    ensures
        r@ == spec_encode_spaces(s@),
{
    proof {
        reveal_strlit("%20");
    }
    let n = s.unicode_len();
    let mut out = String::new();
    let mut i: usize = 0;
    while i < n
        invariant
            n == s@.len(),
            i <= n,
            out@ == spec_encode_spaces(s@.subrange(0, i as int)),
            "%20"@.len() == 3,
        decreases n - i,
    {
        let c = s.get_char(i);
        if c == ' ' {
            out.append("%20");
        } else {
            let piece = s.substring_char(i, i + 1);
            assert(piece@ == seq![s@[i as int]]);
            out.append(piece);
        }
        proof {
            let pre = s@.subrange(0, (i + 1) as int);
            assert(pre.drop_last() == s@.subrange(0, i as int));
            assert(pre.last() == s@[i as int]);
        }
        i = i + 1;
    }
    assert(s@.subrange(0, n as int) == s@);
    out
}

/// The text-search URL: the query with spaces encoded, track results only,
/// the limit cut off at the API's ceiling of fifty.
pub open spec fn spec_search_url(query: Seq<char>, limit: u32) -> Seq<char> {
    spec_api_url() + "/search?q="@ + spec_encode_spaces(query) + "&type=track&limit="@
        + spec_dec((if limit > 50 { 50 as u32 } else { limit }) as nat)
}

/// Build the text-search URL.
pub fn search_url(query: &str, limit: u32) -> (r: String)
    ensures
        r@ == spec_search_url(query@, limit),
{
    let capped: u32 = if limit > 50 {
        50
    } else {
        limit
    };
    let mut url = String::from_str(API_URL);
    url.append("/search?q=");
    let q = encode_spaces(query);
    url.append(q.as_str());
    url.append("&type=track&limit=");
    let l = u64_to_string(capped as u64);
    url.append(l.as_str());
    url
}

/// The first seeds of a run, at most the API's ceiling of five.
pub open spec fn spec_limited_seeds(seeds: Seq<Seq<char>>) -> Seq<Seq<char>> {
    if seeds.len() <= 5 {
        seeds
    } else {
        seeds.subrange(0, 5)
    }
}

/// Plan a recommendations request: an empty seed list is rejected before
/// any request exists; otherwise a single GET for twenty tracks, seeded
/// by at most the first five identifiers, comma-joined.
pub fn recommendations_request(seed_tracks: &Vec<String>) -> (r: Result<ApiRequest, SpotifyError>)
    ensures
        r is Err <==> seed_tracks@.len() == 0,
        r is Err ==> (r->Err_0 matches SpotifyError::ApiRequestFailed { status, message }
            && status == 400 && message@ == "At least one seed track is required"@),
        r is Ok ==> r->Ok_0.method is Get && r->Ok_0.uris_body is None,
        r is Ok ==> r->Ok_0.url@ == spec_api_url() + "/recommendations?limit=20&seed_tracks="@
            + spec_join_sep(
            spec_limited_seeds(seed_tracks@.map_values(|s: String| s@)),
            ","@,
        ),
{
    if seed_tracks.len() == 0 {
        return Err(
            SpotifyError::ApiRequestFailed {
                status: 400,
                message: String::from_str("At least one seed track is required"),
            },
        );
    }
    let ghost views = seed_tracks@.map_values(|s: String| s@);
    let count: usize = if seed_tracks.len() > 5 {
        5
    } else {
        seed_tracks.len()
    };
    let mut limited: Vec<String> = Vec::new();
    let mut i: usize = 0;
    while i < count
        invariant
            i <= count,
            count <= seed_tracks@.len(),
            count == (if seed_tracks@.len() > 5 {
                5int
            } else {
                seed_tracks@.len() as int
            }),
            limited@.map_values(|s: String| s@) =~= views.subrange(0, i as int),
            views == seed_tracks@.map_values(|s: String| s@),
        decreases count - i,
    {
        let ghost lim0 = limited@;
        limited.push(seed_tracks[i].clone());
        proof {
            assert(limited@.map_values(|s: String| s@) =~= lim0.map_values(
                |s: String| s@,
            ).push(seed_tracks@[i as int]@));
            assert(views.subrange(0, i as int).push(views[i as int]) =~= views.subrange(
                0,
                i as int + 1,
            ));
        }
        i = i + 1;
    }
    proof {
        assert(limited@.map_values(|s: String| s@) =~= spec_limited_seeds(views));
    }
    let joined = join_with(&limited, ",");
    let mut url = String::from_str(API_URL);
    url.append("/recommendations?limit=20&seed_tracks=");
    url.append(joined.as_str());
    Ok(ApiRequest { method: HttpMethod::Get, url, uris_body: None })
}

} // verus!
