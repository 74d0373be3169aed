//! The JSON boundary: trusted declarations for serde_json's value type and
//! its accessors, and the verified extraction of the response shapes this
//! service reads (token grants, playlist pages, track objects, search
//! results). Each accessor's result carries a name — parsing and member
//! lookup depend on their arguments alone — so every parse function here
//! owes success, and fixes its fields, as a function of its input.

use vstd::prelude::*;
use vstd::string::*;
use crate::errors::SpotifyError;
use crate::models::TrackInfo;

verus! {

/// serde_json's parsed JSON value, opaque to the verifier.
#[verifier::external_type_specification]
#[verifier::external_body]
pub struct ExJsonValue(serde_json::Value);

/// Whether serde_json accepts a text as JSON; a function of the text
/// alone.
pub uninterp spec fn json_parses(s: Seq<char>) -> bool;

/// The value serde_json parses a text to, when it parses; a function of
/// the text alone.
pub uninterp spec fn json_root_of(s: Seq<char>) -> serde_json::Value;

/// The string-keyed members `Value::get` sees on a value: its members
/// when it is an object, nothing otherwise.
pub uninterp spec fn json_members_of(v: serde_json::Value) -> Map<Seq<char>, serde_json::Value>;

/// What `Value::as_str` yields: the payload when the value is a string.
pub uninterp spec fn json_str_of(v: serde_json::Value) -> Option<Seq<char>>;

/// What `Value::as_u64` yields: the payload when the value is an unsigned
/// integer that fits.
pub uninterp spec fn json_u64_of(v: serde_json::Value) -> Option<u64>;

/// What `Value::as_bool` yields: the payload when the value is a boolean.
pub uninterp spec fn json_bool_of(v: serde_json::Value) -> Option<bool>;

/// What `Value::as_array` yields: the elements when the value is an
/// array.
pub uninterp spec fn json_items_of(v: serde_json::Value) -> Option<Seq<serde_json::Value>>;

/// Relies on serde_json::from_str: parses JSON text, deterministically in
/// the text; the error is rendered to a string.
#[verifier::external_body]
fn json_from_str(s: &str) -> (r: Result<serde_json::Value, String>)
    ensures
        r is Ok <==> json_parses(s@),
        r is Ok ==> r->Ok_0 == json_root_of(s@),
{
    serde_json::from_str::<serde_json::Value>(s).map_err(|e| e.to_string())
}

/// Relies on serde_json::Value::get: the member of an object under a key,
/// if the value is an object that has it; a function of value and key.
#[verifier::external_body]
fn json_get<'a>(v: &'a serde_json::Value, key: &str) -> (r: Option<&'a serde_json::Value>)
    ensures
        r is Some <==> json_members_of(*v).dom().contains(key@),
        r is Some ==> *r->0 == json_members_of(*v)[key@],
{
    v.get(key)
}

/// Relies on serde_json::Value::as_str: the payload of a JSON string.
#[verifier::external_body]
fn json_as_string(v: &serde_json::Value) -> (r: Option<String>)
    ensures
        r is Some <==> json_str_of(*v) is Some,
        r is Some ==> r->0@ == json_str_of(*v)->0,
{
    v.as_str().map(|s| s.to_string())
}

/// Relies on serde_json::Value::as_u64: the payload of an unsigned JSON
/// integer that fits.
#[verifier::external_body]
fn json_as_u64(v: &serde_json::Value) -> (r: Option<u64>)
    ensures
        r == json_u64_of(*v),
{
    v.as_u64()
}

/// Relies on serde_json::Value::as_bool: the payload of a JSON boolean.
#[verifier::external_body]
fn json_as_bool(v: &serde_json::Value) -> (r: Option<bool>)
    ensures
        r == json_bool_of(*v),
{
    v.as_bool()
}

/// Relies on serde_json::Value::as_array: the elements of a JSON array.
#[verifier::external_body]
fn json_as_array<'a>(v: &'a serde_json::Value) -> (r: Option<&'a Vec<serde_json::Value>>)
    ensures
        r is Some <==> json_items_of(*v) is Some,
        r is Some ==> r->0@ == json_items_of(*v)->0,
{
    v.as_array()
}

/// The member under a key, when there is one.
pub open spec fn spec_member(v: serde_json::Value, key: Seq<char>) -> Option<serde_json::Value> {
    if json_members_of(v).dom().contains(key) {
        Some(json_members_of(v)[key])
    } else {
        None
    }
}

/// The string member under a key, when the member exists and is a string.
pub open spec fn spec_member_str(v: serde_json::Value, key: Seq<char>) -> Option<Seq<char>> {
    match spec_member(v, key) {
        Some(m) => json_str_of(m),
        None => None,
    }
}

/// The unsigned-integer member under a key, when it exists and fits.
pub open spec fn spec_member_u64(v: serde_json::Value, key: Seq<char>) -> Option<u64> {
    match spec_member(v, key) {
        Some(m) => json_u64_of(m),
        None => None,
    }
}

/// The boolean member under a key, when the member exists and is one.
pub open spec fn spec_member_bool(v: serde_json::Value, key: Seq<char>) -> Option<bool> {
    match spec_member(v, key) {
        Some(m) => json_bool_of(m),
        None => None,
    }
}

/// The array elements of a member, when the member exists and is an
/// array.
pub open spec fn spec_member_items(v: serde_json::Value, key: Seq<char>) -> Option<
    Seq<serde_json::Value>,
> {
    match spec_member(v, key) {
        Some(m) => json_items_of(m),
        None => None,
    }
}

/// Parse JSON text, mapping a parse failure to the client's error type.
/// Succeeds exactly on text serde_json accepts, returning its value.
pub fn parse_json_text(s: &str) -> (r: Result<serde_json::Value, SpotifyError>)
    ensures
        r is Ok <==> json_parses(s@),
        r is Ok ==> r->Ok_0 == json_root_of(s@),
        r is Err ==> r->Err_0 is JsonParsingError,
{
    match json_from_str(s) {
        Ok(v) => Ok(v),
        Err(msg) => Err(SpotifyError::JsonParsingError(msg)),
    }
}

/// A string member of a JSON object.
fn get_string_member(v: &serde_json::Value, key: &str) -> (r: Option<String>)
    ensures
        r is Some <==> spec_member_str(*v, key@) is Some,
        r is Some ==> r->0@ == spec_member_str(*v, key@)->0,
{
    match json_get(v, key) {
        Some(member) => json_as_string(member),
        None => None,
    }
}

/// One access token grant as the authorization endpoint returns it.
#[derive(Debug, Clone, PartialEq)]
pub struct TokenGrant {
    /// The bearer token.
    pub access_token: String,
    /// Seconds until it expires; one hour when the response names none.
    pub expires_in_s: u64,
}

/// The token a grant body carries, when it parses and holds one.
pub open spec fn spec_grant_token(s: Seq<char>) -> Option<Seq<char>> {
    if json_parses(s) {
        spec_member_str(json_root_of(s), "access_token"@)
    } else {
        None
    }
}

/// The lifetime a grant body carries, with the one-hour fallback.
pub open spec fn spec_grant_expires(s: Seq<char>) -> u64 {
    match spec_member_u64(json_root_of(s), "expires_in"@) {
        Some(secs) => secs,
        None => 3600,
    }
}

/// Read a token grant out of a token-endpoint response body. Succeeds
/// exactly when the body parses and carries a string access token,
/// returning that token and the carried lifetime (one hour when none is
/// carried); a missing token and an unparseable body are told apart.
pub fn parse_token_grant(body: &str) -> (r: Result<TokenGrant, SpotifyError>)
    ensures
        r is Ok <==> spec_grant_token(body@) is Some,
        r is Ok ==> r->Ok_0.access_token@ == spec_grant_token(body@)->0,
        r is Ok ==> r->Ok_0.expires_in_s == spec_grant_expires(body@),
        !json_parses(body@) ==> r->Err_0 is JsonParsingError,
        json_parses(body@) && spec_grant_token(body@) is None ==> (r->Err_0 matches
            SpotifyError::TokenRefreshFailed(m) && m@ == "No access token in response"@),
{
    let root = parse_json_text(body)?;
    let access_token = match get_string_member(&root, "access_token") {
        Some(t) => t,
        None => {
            return Err(
                SpotifyError::TokenRefreshFailed(
                    String::from_str("No access token in response"),
                ),
            );
        },
    };
    let expires_in_s = match json_get(&root, "expires_in") {
        Some(v) => {
            match json_as_u64(v) {
                Some(secs) => secs,
                None => 3600,
            }
        },
        None => 3600,
    };
    Ok(TokenGrant { access_token, expires_in_s })
}

/// A value cut to the `u32` range.
pub open spec fn spec_sat_u32(x: u64) -> u32 {
    if x > u32::MAX {
        u32::MAX
    } else {
        x as u32
    }
}

/// A value cut to the `u8` range.
pub open spec fn spec_sat_u8(x: u64) -> u8 {
    if x > u8::MAX {
        u8::MAX
    } else {
        x as u8
    }
}

/// A track object carries everything required: string identifier, URI and
/// name, an artists array, an album object with a string name, and an
/// unsigned duration.
pub open spec fn spec_track_ok(v: serde_json::Value) -> bool {
    &&& spec_member_str(v, "id"@) is Some
    &&& spec_member_str(v, "uri"@) is Some
    &&& spec_member_str(v, "name"@) is Some
    &&& spec_member_items(v, "artists"@) is Some
    &&& spec_album_name(v) is Some
    &&& spec_member_u64(v, "duration_ms"@) is Some
}

/// The album object's name member.
pub open spec fn spec_album_name(v: serde_json::Value) -> Option<Seq<char>> {
    match spec_member(v, "album"@) {
        Some(album) => spec_member_str(album, "name"@),
        None => None,
    }
}

/// The artist names of an artists array: each entry's string name member,
/// entries without one skipped.
pub open spec fn spec_artist_names_of(items: Seq<serde_json::Value>) -> Seq<Seq<char>>
    decreases items.len(),
{
    if items.len() == 0 {
        Seq::empty()
    } else {
        spec_artist_names_of(items.drop_last()) + (match spec_member_str(
            items.last(),
            "name"@,
        ) {
            Some(n) => seq![n],
            None => Seq::empty(),
        })
    }
}

/// The track a well-formed track object parses to, field by field: the
/// required strings as they stand, the artist names in order, the
/// duration and popularity saturated to their fields' ranges, the
/// optional preview, and the explicit flag defaulting to false.
pub open spec fn spec_track_matches(t: TrackInfo, v: serde_json::Value) -> bool {
    &&& t.id@ == spec_member_str(v, "id"@)->0
    &&& t.uri@ == spec_member_str(v, "uri"@)->0
    &&& t.name@ == spec_member_str(v, "name"@)->0
    &&& t.artists@.map_values(|a: String| a@) == spec_artist_names_of(
        spec_member_items(v, "artists"@)->0,
    )
    &&& t.album@ == spec_album_name(v)->0
    &&& t.duration_ms == spec_sat_u32(spec_member_u64(v, "duration_ms"@)->0)
    &&& t.popularity == (match spec_member_u64(v, "popularity"@) {
        Some(p) => Some(spec_sat_u8(p)),
        None => None::<u8>,
    })
    &&& (match spec_member_str(v, "preview_url"@) {
        Some(p) => t.preview_url matches Some(x) && x@ == p,
        None => t.preview_url is None,
    })
    &&& t.explicit == (match spec_member_bool(v, "explicit"@) {
        Some(b) => b,
        None => false,
    })
}

/// Read one track object. Succeeds exactly when the object carries the
/// required members, and then returns the track those members spell.
#[verifier::loop_isolation(false)]
pub fn parse_track_value(v: &serde_json::Value) -> (r: Result<TrackInfo, SpotifyError>)
    ensures
        r is Ok <==> spec_track_ok(*v),
        r is Ok ==> spec_track_matches(r->Ok_0, *v),
        r is Err ==> r->Err_0 is JsonParsingError,
{
    let id = match get_string_member(v, "id") {
        Some(s) => s,
        None => {
            return Err(SpotifyError::JsonParsingError(String::from_str("Missing track ID")));
        },
    };
    let uri = match get_string_member(v, "uri") {
        Some(s) => s,
        None => {
            return Err(SpotifyError::JsonParsingError(String::from_str("Missing track URI")));
        },
    };
    let name = match get_string_member(v, "name") {
        Some(s) => s,
        None => {
            return Err(SpotifyError::JsonParsingError(String::from_str("Missing track name")));
        },
    };
    let items = match json_get(v, "artists") {
        Some(list) => {
            match json_as_array(list) {
                Some(items) => items,
                None => {
                    return Err(
                        SpotifyError::JsonParsingError(
                            String::from_str("Missing artists array"),
                        ),
                    );
                },
            }
        },
        None => {
            return Err(
                SpotifyError::JsonParsingError(String::from_str("Missing artists array")),
            );
        },
    };
    let ghost items_view = spec_member_items(*v, "artists"@)->0;
    let mut artists: Vec<String> = Vec::new();
    let mut i: usize = 0;
    proof {
        assert(items_view.subrange(0, 0) =~= Seq::<serde_json::Value>::empty());
        assert(artists@.map_values(|a: String| a@) =~= Seq::<Seq<char>>::empty());
    }
    while i < items.len()
        invariant
            i <= items@.len(),
            items@ == items_view,
            artists@.map_values(|a: String| a@) == spec_artist_names_of(
                items_view.subrange(0, i as int),
            ),
        decreases items@.len() - i,
    {
        let ghost arts0 = artists@;
        match get_string_member(&items[i], "name") {
            Some(artist) => {
                let ghost av = artist@;
                artists.push(artist);
                proof {
                    assert(artists@.map_values(|a: String| a@) =~= arts0.map_values(
                        |a: String| a@,
                    ).push(av));
                }
            },
            None => {},
        }
        proof {
            let pre = items_view.subrange(0, i as int + 1);
            assert(pre.drop_last() =~= items_view.subrange(0, i as int));
            assert(pre.last() == items_view[i as int]);
        }
        i = i + 1;
    }
    proof {
        assert(items_view.subrange(0, items_view.len() as int) =~= items_view);
    }
    let album = match json_get(v, "album") {
        Some(a) => {
            match get_string_member(a, "name") {
                Some(s) => s,
                None => {
                    return Err(
                        SpotifyError::JsonParsingError(String::from_str("Missing album name")),
                    );
                },
            }
        },
        None => {
            return Err(SpotifyError::JsonParsingError(String::from_str("Missing album name")));
        },
    };
    let duration_ms: u32 = match json_get(v, "duration_ms") {
        Some(d) => {
            match json_as_u64(d) {
                Some(ms) => {
                    if ms > 0xFFFF_FFFF {
                        u32::MAX
                    } else {
                        ms as u32
                    }
                },
                None => {
                    return Err(
                        SpotifyError::JsonParsingError(String::from_str("Missing duration")),
                    );
                },
            }
        },
        None => {
            return Err(SpotifyError::JsonParsingError(String::from_str("Missing duration")));
        },
    };
    let popularity: Option<u8> = match json_get(v, "popularity") {
        Some(p) => {
            match json_as_u64(p) {
                Some(pop) => {
                    if pop > 255 {
                        Some(u8::MAX)
                    } else {
                        Some(pop as u8)
                    }
                },
                None => None,
            }
        },
        None => None,
    };
    let preview_url = get_string_member(v, "preview_url");
    let explicit = match json_get(v, "explicit") {
        Some(e) => {
            match json_as_bool(e) {
                Some(b) => b,
                None => false,
            }
        },
        None => false,
    };
    Ok(TrackInfo { id, uri, name, artists, album, duration_ms, popularity, preview_url, explicit })
}

/// One page of a playlist listing: how many entries the page carried, and
/// the tracks that parsed. Malformed entries are skipped, not fatal.
#[derive(Debug, Clone, PartialEq)]
pub struct TrackPage {
    /// Raw entry count of the page, before any entry was skipped.
    pub entries: usize,
    /// The tracks that parsed, in page order.
    pub tracks: Vec<TrackInfo>,
}

/// The well-formed track objects among a page's entries, in order: each
/// entry's track member, kept when it parses as a track.
pub open spec fn spec_page_tracks(items: Seq<serde_json::Value>) -> Seq<serde_json::Value>
    decreases items.len(),
{
    if items.len() == 0 {
        Seq::empty()
    } else {
        spec_page_tracks(items.drop_last()) + (match spec_member(items.last(), "track"@) {
            Some(t) => if spec_track_ok(t) {
                seq![t]
            } else {
                Seq::empty()
            },
            None => Seq::empty(),
        })
    }
}

/// The entries of a page body: its `items` array, when the body parses
/// and carries one.
pub open spec fn spec_page_items(s: Seq<char>) -> Option<Seq<serde_json::Value>> {
    if json_parses(s) {
        spec_member_items(json_root_of(s), "items"@)
    } else {
        None
    }
}

/// Read one playlist page: the `items` array, each item's `track` object.
/// Succeeds exactly when the body parses and holds an items array; the
/// raw entry count is the array's length, and the tracks are exactly the
/// well-formed entries' tracks, in order, with malformed entries skipped.
#[verifier::loop_isolation(false)]
pub fn parse_tracks_page(body: &str) -> (r: Result<TrackPage, SpotifyError>)
    ensures
        r is Ok <==> spec_page_items(body@) is Some,
        r is Ok ==> r->Ok_0.entries == spec_page_items(body@)->0.len(),
        r is Ok ==> r->Ok_0.tracks@.len() == spec_page_tracks(spec_page_items(body@)->0).len(),
        r is Ok ==> (forall|k: int|
            0 <= k < r->Ok_0.tracks@.len() ==> spec_track_matches(
                #[trigger] r->Ok_0.tracks@[k],
                spec_page_tracks(spec_page_items(body@)->0)[k],
            )),
        r is Err ==> r->Err_0 is JsonParsingError,
{
    let root = parse_json_text(body)?;
    let items = match json_get(&root, "items") {
        Some(list) => {
            match json_as_array(list) {
                Some(items) => items,
                None => {
                    return Err(
                        SpotifyError::JsonParsingError(
                            String::from_str("Invalid playlist tracks response"),
                        ),
                    );
                },
            }
        },
        None => {
            return Err(
                SpotifyError::JsonParsingError(
                    String::from_str("Invalid playlist tracks response"),
                ),
            );
        },
    };
    let ghost items_view = spec_page_items(body@)->0;
    let entries = items.len();
    let mut tracks: Vec<TrackInfo> = Vec::new();
    let mut i: usize = 0;
    proof {
        assert(items_view.subrange(0, 0) =~= Seq::<serde_json::Value>::empty());
    }
    while i < entries
        invariant
            entries == items@.len(),
            items@ == items_view,
            i <= entries,
            tracks@.len() == spec_page_tracks(items_view.subrange(0, i as int)).len(),
            forall|k: int|
                0 <= k < tracks@.len() ==> spec_track_matches(
                    #[trigger] tracks@[k],
                    spec_page_tracks(items_view.subrange(0, i as int))[k],
                ),
        decreases entries - i,
    {
        let ghost pre = items_view.subrange(0, i as int);
        let ghost pre1 = items_view.subrange(0, i as int + 1);
        proof {
            assert(pre1.drop_last() =~= pre);
            assert(pre1.last() == items_view[i as int]);
        }
        match json_get(&items[i], "track") {
            Some(track_value) => {
                match parse_track_value(track_value) {
                    Ok(track) => {
                        tracks.push(track);
                        proof {
                            assert(spec_page_tracks(pre1) =~= spec_page_tracks(pre).push(
                                *track_value,
                            ));
                        }
                    },
                    Err(_) => {},
                }
            },
            None => {},
        }
        i = i + 1;
    }
    proof {
        assert(items_view.subrange(0, entries as int) =~= items_view);
    }
    Ok(TrackPage { entries, tracks })
}

/// One page of a playlist listing reduced to URIs: how many entries the
/// page carried, and the URIs of the entries that had one.
#[derive(Debug, Clone, PartialEq)]
pub struct UriPage {
    /// Raw entry count of the page.
    pub entries: usize,
    /// Each entry's track URI, in page order, where present.
    pub uris: Vec<String>,
}

/// The URIs among a page's entries, in order: each entry's track member's
/// string uri member, kept where present.
pub open spec fn spec_page_uris(items: Seq<serde_json::Value>) -> Seq<Seq<char>>
    decreases items.len(),
{
    if items.len() == 0 {
        Seq::empty()
    } else {
        spec_page_uris(items.drop_last()) + (match spec_member(items.last(), "track"@) {
            Some(t) => match spec_member_str(t, "uri"@) {
                Some(u) => seq![u],
                None => Seq::empty(),
            },
            None => Seq::empty(),
        })
    }
}

/// Read one playlist page keeping only each entry's track URI. Succeeds
/// exactly when the body parses and holds an items array; the URIs are
/// exactly those the entries carry, in order.
#[verifier::loop_isolation(false)]
pub fn parse_uris_page(body: &str) -> (r: Result<UriPage, SpotifyError>)
    ensures
        r is Ok <==> spec_page_items(body@) is Some,
        r is Ok ==> r->Ok_0.entries == spec_page_items(body@)->0.len(),
        r is Ok ==> r->Ok_0.uris@.map_values(|u: String| u@) == spec_page_uris(
            spec_page_items(body@)->0,
        ),
        r is Err ==> r->Err_0 is JsonParsingError,
{
    let root = parse_json_text(body)?;
    let items = match json_get(&root, "items") {
        Some(list) => {
            match json_as_array(list) {
                Some(items) => items,
                None => {
                    return Err(
                        SpotifyError::JsonParsingError(
                            String::from_str("Invalid playlist tracks response"),
                        ),
                    );
                },
            }
        },
        None => {
            return Err(
                SpotifyError::JsonParsingError(
                    String::from_str("Invalid playlist tracks response"),
                ),
            );
        },
    };
    let ghost items_view = spec_page_items(body@)->0;
    let entries = items.len();
    let mut uris: Vec<String> = Vec::new();
    let mut i: usize = 0;
    proof {
        assert(items_view.subrange(0, 0) =~= Seq::<serde_json::Value>::empty());
        assert(uris@.map_values(|u: String| u@) =~= Seq::<Seq<char>>::empty());
    }
    while i < entries
        invariant
            entries == items@.len(),
            items@ == items_view,
            i <= entries,
            uris@.map_values(|u: String| u@) == spec_page_uris(items_view.subrange(0, i as int)),
        decreases entries - i,
    {
        let ghost pre = items_view.subrange(0, i as int);
        let ghost pre1 = items_view.subrange(0, i as int + 1);
        proof {
            assert(pre1.drop_last() =~= pre);
            assert(pre1.last() == items_view[i as int]);
        }
        match json_get(&items[i], "track") {
            Some(track_value) => {
                match get_string_member(track_value, "uri") {
                    Some(uri) => {
                        let ghost uv = uri@;
                        let ghost uris0 = uris@;
                        uris.push(uri);
                        proof {
                            assert(uris@.map_values(|u: String| u@) =~= uris0.map_values(
                                |u: String| u@,
                            ).push(uv));
                        }
                    },
                    None => {},
                }
            },
            None => {},
        }
        i = i + 1;
    }
    proof {
        assert(items_view.subrange(0, entries as int) =~= items_view);
    }
    Ok(UriPage { entries, uris })
}

/// The well-formed track objects among an array's elements, in order.
pub open spec fn spec_wf_tracks(items: Seq<serde_json::Value>) -> Seq<serde_json::Value>
    decreases items.len(),
{
    if items.len() == 0 {
        Seq::empty()
    } else {
        spec_wf_tracks(items.drop_last()) + (if spec_track_ok(items.last()) {
            seq![items.last()]
        } else {
            Seq::empty()
        })
    }
}

/// Collect the tracks among an array of track objects, skipping
/// malformed elements; the result parses exactly the well-formed ones,
/// in order.
#[verifier::loop_isolation(false)]
fn collect_tracks(items: &Vec<serde_json::Value>) -> (r: Vec<TrackInfo>)
    ensures
        r@.len() == spec_wf_tracks(items@).len(),
        forall|k: int|
            0 <= k < r@.len() ==> spec_track_matches(
                #[trigger] r@[k],
                spec_wf_tracks(items@)[k],
            ),
{
    let ghost items_view = items@;
    let mut results: Vec<TrackInfo> = Vec::new();
    let mut i: usize = 0;
    proof {
        assert(items_view.subrange(0, 0) =~= Seq::<serde_json::Value>::empty());
    }
    while i < items.len()
        invariant
            items@ == items_view,
            i <= items_view.len(),
            results@.len() == spec_wf_tracks(items_view.subrange(0, i as int)).len(),
            forall|k: int|
                0 <= k < results@.len() ==> spec_track_matches(
                    #[trigger] results@[k],
                    spec_wf_tracks(items_view.subrange(0, i as int))[k],
                ),
        decreases items_view.len() - i,
    {
        let ghost pre = items_view.subrange(0, i as int);
        let ghost pre1 = items_view.subrange(0, i as int + 1);
        proof {
            assert(pre1.drop_last() =~= pre);
            assert(pre1.last() == items_view[i as int]);
        }
        match parse_track_value(&items[i]) {
            Ok(track) => {
                results.push(track);
                proof {
                    assert(spec_wf_tracks(pre1) =~= spec_wf_tracks(pre).push(
                        items_view[i as int],
                    ));
                }
            },
            Err(_) => {},
        }
        i = i + 1;
    }
    proof {
        assert(items_view.subrange(0, items_view.len() as int) =~= items_view);
    }
    results
}

/// The track objects of a search body: its `tracks.items` array, when the
/// body parses and carries one.
pub open spec fn spec_search_items(s: Seq<char>) -> Option<Seq<serde_json::Value>> {
    if json_parses(s) {
        match spec_member(json_root_of(s), "tracks"@) {
            Some(tracks) => spec_member_items(tracks, "items"@),
            None => None,
        }
    } else {
        None
    }
}

/// Read a search response: the `tracks.items` array of track objects.
/// Succeeds exactly when the body parses and holds that array; the
/// results are exactly its well-formed tracks in order, malformed
/// entries skipped.
pub fn parse_search_results(body: &str) -> (r: Result<Vec<TrackInfo>, SpotifyError>)
    ensures
        r is Ok <==> spec_search_items(body@) is Some,
        r is Ok ==> r->Ok_0@.len() == spec_wf_tracks(spec_search_items(body@)->0).len(),
        r is Ok ==> (forall|k: int|
            0 <= k < r->Ok_0@.len() ==> spec_track_matches(
                #[trigger] r->Ok_0@[k],
                spec_wf_tracks(spec_search_items(body@)->0)[k],
            )),
        r is Err ==> r->Err_0 is JsonParsingError,
{
    let root = parse_json_text(body)?;
    let items = match json_get(&root, "tracks") {
        Some(tracks_obj) => {
            match json_get(tracks_obj, "items") {
                Some(list) => {
                    match json_as_array(list) {
                        Some(items) => items,
                        None => {
                            return Err(
                                SpotifyError::JsonParsingError(
                                    String::from_str("Invalid search response"),
                                ),
                            );
                        },
                    }
                },
                None => {
                    return Err(
                        SpotifyError::JsonParsingError(
                            String::from_str("Invalid search response"),
                        ),
                    );
                },
            }
        },
        None => {
            return Err(
                SpotifyError::JsonParsingError(String::from_str("Invalid search response")),
            );
        },
    };
    Ok(collect_tracks(items))
}

/// The track objects of a recommendations body: its `tracks` array, when
/// the body parses and carries one.
pub open spec fn spec_recommendation_items(s: Seq<char>) -> Option<Seq<serde_json::Value>> {
    if json_parses(s) {
        spec_member_items(json_root_of(s), "tracks"@)
    } else {
        None
    }
}

/// Read a recommendations response: the `tracks` array of track objects.
/// Succeeds exactly when the body parses and holds that array; the
/// results are exactly its well-formed tracks in order.
pub fn parse_recommendations(body: &str) -> (r: Result<Vec<TrackInfo>, SpotifyError>)
    ensures
        r is Ok <==> spec_recommendation_items(body@) is Some,
        r is Ok ==> r->Ok_0@.len() == spec_wf_tracks(spec_recommendation_items(body@)->0).len(),
        r is Ok ==> (forall|k: int|
            0 <= k < r->Ok_0@.len() ==> spec_track_matches(
                #[trigger] r->Ok_0@[k],
                spec_wf_tracks(spec_recommendation_items(body@)->0)[k],
            )),
        r is Err ==> r->Err_0 is JsonParsingError,
{
    let root = parse_json_text(body)?;
    let items = match json_get(&root, "tracks") {
        Some(list) => {
            match json_as_array(list) {
                Some(items) => items,
                None => {
                    return Err(
                        SpotifyError::JsonParsingError(
                            String::from_str("Invalid recommendations response"),
                        ),
                    );
                },
            }
        },
        None => {
            return Err(
                SpotifyError::JsonParsingError(
                    String::from_str("Invalid recommendations response"),
                ),
            );
        },
    };
    Ok(collect_tracks(items))
}

} // verus!
