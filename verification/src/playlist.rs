//! The playlist store's logic: paginated listing, the duplicate-checked
//! idempotent append, full replacement, and track-URI validation. The
//! surrounding process performs the HTTP exchanges; every decision and
//! accumulation step stands here.

use vstd::prelude::*;
use vstd::string::*;
use crate::endpoints::{playlist_tracks_url, spec_playlist_tracks_url, ApiRequest, HttpMethod};
use crate::errors::PlaylistError;
use crate::json::TrackPage;
use crate::models::TrackInfo;
use crate::text::{has_prefix, spec_has_prefix, str_eq};
use vstd::string::StrSliceExecFns;

verus! {

/// The page size used for playlist listing, the API's maximum.
pub const PAGE_SIZE: usize = 100;

/// The running state of one paginated listing: the tracks gathered so
/// far, the next page's offset, how many page requests were made, and
/// whether the last page ended the listing.
#[derive(Debug, Clone, PartialEq)]
pub struct ListingAccum {
    /// Tracks gathered so far, in listing order.
    pub tracks: Vec<TrackInfo>,
    /// Offset of the next page.
    pub offset: usize,
    /// Page requests made so far.
    pub requests: usize,
    /// The last page carried fewer entries than the page size.
    pub done: bool,
}

impl ListingAccum {
    /// An empty listing about to request its first page.
    pub fn new() -> (a: ListingAccum)
        ensures
            a.tracks@.len() == 0,
            a.offset == 0,
            a.requests == 0,
            !a.done,
    {
        ListingAccum { tracks: Vec::new(), offset: 0, requests: 0, done: false }
    }

    /// Record one fetched page: its tracks are appended in order, the
    /// offset moves one page size on, and the listing is done exactly when
    /// the page carried fewer entries than the page size.
    pub fn record_page(&mut self, page: TrackPage)
        requires
            !old(self).done,
            old(self).offset + PAGE_SIZE <= usize::MAX,
            old(self).requests < usize::MAX,
            old(self).tracks@.len() + page.tracks@.len() <= usize::MAX,
        ensures
            final(self).tracks@ == old(self).tracks@ + page.tracks@,
            final(self).offset == old(self).offset + PAGE_SIZE,
            final(self).requests == old(self).requests + 1,
            final(self).done == (page.entries < PAGE_SIZE),
    {
        let mut incoming = page.tracks;
        self.tracks.append(&mut incoming);
        self.offset = self.offset + PAGE_SIZE;
        self.requests = self.requests + 1;
        self.done = page.entries < PAGE_SIZE;
    }
}

/// Law: over a faithful listing of N tracks served in insertion order at
/// a fixed page size P, paginated listing returns exactly the N tracks in
/// their original order, and makes one page request when the listing is
/// empty, `ceil(N/P)` when N is not a multiple of P, and `N/P + 1` when a
/// non-empty listing divides evenly (the final short page is what ends
/// the loop). This function is the listing loop run against such a
/// server, with the page slices handed to the same accumulator the
/// process drives.
pub fn list_tracks_model(listing: Vec<TrackInfo>) -> (r: (Vec<TrackInfo>, usize))
    requires
        listing@.len() + PAGE_SIZE < usize::MAX,
    ensures
        r.0@ == listing@,
        listing@.len() == 0 ==> r.1 == 1,
        listing@.len() as int % (PAGE_SIZE as int) != 0 ==> r.1 == (listing@.len() as int
            + PAGE_SIZE - 1) / (PAGE_SIZE as int),
        listing@.len() > 0 && listing@.len() as int % (PAGE_SIZE as int) == 0 ==> r.1
            == listing@.len() as int / (PAGE_SIZE as int) + 1,
{
    let ghost all = listing@;
    let n = listing.len();
    let mut remaining = listing;
    let mut accum = ListingAccum::new();
    while !accum.done
        invariant
            all.len() == n,
            n + PAGE_SIZE < usize::MAX,
            !accum.done ==> {
                &&& accum.tracks@ + remaining@ == all
                &&& accum.tracks@.len() == accum.offset
                &&& accum.offset == accum.requests * PAGE_SIZE
                &&& accum.offset <= n
            },
            accum.done ==> {
                &&& accum.tracks@ == all
                &&& (n == 0 ==> accum.requests == 1)
                &&& (n as int % (PAGE_SIZE as int) != 0 ==> accum.requests == (n + PAGE_SIZE
                    - 1) as int / (PAGE_SIZE as int))
                &&& (n > 0 && n as int % (PAGE_SIZE as int) == 0 ==> accum.requests == n as int
                    / (PAGE_SIZE as int) + 1)
            },
        decreases (if accum.done { 0int } else { n - accum.offset + 1 }),
    {
        let take: usize = if remaining.len() < PAGE_SIZE {
            remaining.len()
        } else {
            PAGE_SIZE
        };
        let mut page_tracks: Vec<TrackInfo> = Vec::new();
        let mut j: usize = 0;
        while j < take
            invariant
                j <= take,
                take <= remaining@.len() + j,
                page_tracks@.len() == j,
                accum.tracks@ + page_tracks@ + remaining@ == all,
            decreases take - j,
        {
            let item = remaining.remove(0);
            page_tracks.push(item);
            proof {
                assert(accum.tracks@ + page_tracks@ + remaining@ == all);
            }
            j = j + 1;
        }
        let ghost old_requests = accum.requests as int;
        let ghost old_offset = accum.offset as int;
        let page = TrackPage { entries: take, tracks: page_tracks };
        accum.record_page(page);
        proof {
            if take < PAGE_SIZE {
                assert(remaining@.len() == 0);
                assert(accum.tracks@ == all);
                assert(old_offset + take == n);
                assert(old_offset == old_requests * (PAGE_SIZE as int));
                if n == 0 {
                    assert(old_requests == 0) by {
                        vstd::arithmetic::mul::lemma_mul_equality_converse(
                            PAGE_SIZE as int,
                            old_requests,
                            0,
                        );
                    }
                } else if take == 0 {
                    assert(old_offset == n);
                    assert(n as int % (PAGE_SIZE as int) == 0 && n as int / (PAGE_SIZE as int)
                        == old_requests) by {
                        vstd::arithmetic::div_mod::lemma_fundamental_div_mod_converse(
                            n as int,
                            PAGE_SIZE as int,
                            old_requests,
                            0,
                        );
                    }
                } else {
                    assert(n as int % (PAGE_SIZE as int) == take && n as int / (PAGE_SIZE as int)
                        == old_requests) by {
                        vstd::arithmetic::div_mod::lemma_fundamental_div_mod_converse(
                            n as int,
                            PAGE_SIZE as int,
                            old_requests,
                            take as int,
                        );
                    }
                    assert((n + PAGE_SIZE - 1) as int / (PAGE_SIZE as int) == old_requests
                        + 1) by {
                        vstd::arithmetic::div_mod::lemma_fundamental_div_mod_converse(
                            (n + PAGE_SIZE - 1) as int,
                            PAGE_SIZE as int,
                            old_requests + 1,
                            take as int - 1,
                        );
                    }
                }
            } else {
                assert(accum.offset == (old_requests + 1) * (PAGE_SIZE as int)) by {
                    vstd::arithmetic::mul::lemma_mul_is_distributive_add_other_way(
                        PAGE_SIZE as int,
                        old_requests,
                        1,
                    );
                }
            }
        }
    }
    (accum.tracks, accum.requests)
}

/// A URI occurs among the listed URIs.
pub open spec fn spec_uris_contain(uris: Seq<String>, target: Seq<char>) -> bool {
    exists|i: int| 0 <= i < uris.len() && #[trigger] uris[i]@ == target
}

/// Scan one page of URIs for a target URI; the duplicate check
/// short-circuits its pagination on the first page where this holds.
pub fn page_contains_uri(uris: &Vec<String>, target: &str) -> (r: bool)
    ensures
        r == spec_uris_contain(uris@, target@),
{
    let mut i: usize = 0;
    while i < uris.len()
        invariant
            i <= uris@.len(),
            forall|j: int| 0 <= j < i ==> #[trigger] uris@[j]@ != target@,
        decreases uris@.len() - i,
    {
        if str_eq(uris[i].as_str(), target) {
            return true;
        }
        i = i + 1;
    }
    false
}

/// The position of the first occurrence of a URI in a listing, or the
/// listing's length when it occurs nowhere.
pub open spec fn spec_first_uri_at(uris: Seq<String>, target: Seq<char>) -> int
    decreases uris.len(),
{
    if uris.len() == 0 {
        0
    } else if uris[0]@ == target {
        0
    } else {
        1 + spec_first_uri_at(uris.drop_first(), target)
    }
}

/// The first occurrence stands after every non-match and is a match when
/// it stands inside the listing.
proof fn lemma_first_uri_at(uris: Seq<String>, target: Seq<char>)
    ensures
        0 <= spec_first_uri_at(uris, target) <= uris.len(),
        forall|j: int|
            0 <= j < spec_first_uri_at(uris, target) ==> #[trigger] uris[j]@ != target,
        spec_first_uri_at(uris, target) < uris.len() ==> uris[spec_first_uri_at(
            uris,
            target,
        )]@ == target,
    decreases uris.len(),
{
    if uris.len() == 0 {
    } else if uris[0]@ == target {
    } else {
        lemma_first_uri_at(uris.drop_first(), target);
        let f = spec_first_uri_at(uris, target);
        assert forall|j: int| 0 <= j < f implies #[trigger] uris[j]@ != target by {
            if j >= 1 {
                assert(uris.drop_first()[j - 1]@ != target);
                assert(uris.drop_first()[j - 1] == uris[j]);
            }
        }
        if f < uris.len() {
            assert(uris.drop_first()[f - 1]@ == target);
            assert(uris.drop_first()[f - 1] == uris[f]);
        }
    }
}

/// Law: the duplicate check pages through a listing and stops at the
/// first page that holds the URI. Over a faithful listing served in
/// order at the fixed page size, it finds the URI exactly when the
/// listing holds it; a hit at position `f` costs `f/P + 1` page
/// requests, and a miss pages through the whole listing, costing the
/// same page count as a full read. This function is that scan run
/// against such a server, with each page checked by the same scan the
/// process uses.
#[verifier::loop_isolation(false)]
pub fn contains_model(listing: Vec<String>, target: &str) -> (r: (bool, usize))
    requires
        listing@.len() + PAGE_SIZE < usize::MAX,
    ensures
        r.0 == spec_uris_contain(listing@, target@),
        r.0 ==> r.1 == spec_first_uri_at(listing@, target@) / (PAGE_SIZE as int) + 1,
        !r.0 && listing@.len() == 0 ==> r.1 == 1,
        !r.0 && listing@.len() as int % (PAGE_SIZE as int) != 0 ==> r.1 == (listing@.len()
            as int + PAGE_SIZE - 1) / (PAGE_SIZE as int),
        !r.0 && listing@.len() > 0 && listing@.len() as int % (PAGE_SIZE as int) == 0 ==> r.1
            == listing@.len() as int / (PAGE_SIZE as int) + 1,
{
    proof {
        lemma_first_uri_at(listing@, target@);
    }
    let ghost all = listing@;
    let ghost first = spec_first_uri_at(listing@, target@);
    let n = listing.len();
    let mut remaining = listing;
    let mut offset: usize = 0;
    let mut requests: usize = 0;
    let mut found = false;
    let mut done = false;
    while !done
        invariant
            n == all.len(),
            n + PAGE_SIZE < usize::MAX,
            !done ==> {
                &&& offset == requests * PAGE_SIZE
                &&& offset <= n
                &&& remaining@ == all.subrange(offset as int, n as int)
                &&& first >= offset
                &&& !found
            },
            done ==> {
                &&& found == spec_uris_contain(all, target@)
                &&& (found ==> requests as int == first / (PAGE_SIZE as int) + 1)
                &&& (!found && n == 0 ==> requests == 1)
                &&& (!found && n as int % (PAGE_SIZE as int) != 0 ==> requests == (n as int
                    + PAGE_SIZE - 1) / (PAGE_SIZE as int))
                &&& (!found && n > 0 && n as int % (PAGE_SIZE as int) == 0 ==> requests == n
                    as int / (PAGE_SIZE as int) + 1)
            },
        decreases (if done { 0int } else { n - offset + 1 }),
    {
        let take: usize = if remaining.len() < PAGE_SIZE {
            remaining.len()
        } else {
            PAGE_SIZE
        };
        let mut page: Vec<String> = Vec::new();
        let mut j: usize = 0;
        while j < take
            invariant
                j <= take,
                take <= remaining@.len() + j,
                offset + take <= n,
                page@.len() == j,
                page@ == all.subrange(offset as int, offset as int + j),
                remaining@ == all.subrange(offset as int + j, n as int),
            decreases take - j,
        {
            let item = remaining.remove(0);
            proof {
                assert(all.subrange(offset as int + j, n as int)[0] == all[offset + j]);
                assert(remaining@ =~= all.subrange(offset as int + j + 1, n as int));
            }
            page.push(item);
            proof {
                assert(page@ =~= all.subrange(offset as int, offset as int + j + 1));
            }
            j = j + 1;
        }
        let ghost old_requests = requests as int;
        let ghost old_offset = offset as int;
        requests = requests + 1;
        if page_contains_uri(&page, target) {
            found = true;
            done = true;
            proof {
                let m = choose|m: int| 0 <= m < page@.len() && page@[m]@ == target@;
                assert(all[old_offset + m]@ == target@);
                assert(first <= old_offset + m) by {
                    if first > old_offset + m {
                        assert(all[old_offset + m]@ != target@);
                    }
                }
                assert(first < old_offset + take);
                assert(spec_uris_contain(all, target@)) by {
                    assert(all[old_offset + m]@ == target@);
                }
                assert(requests as int == first / (PAGE_SIZE as int) + 1) by {
                    vstd::arithmetic::div_mod::lemma_fundamental_div_mod_converse(
                        first,
                        PAGE_SIZE as int,
                        old_requests,
                        first - old_offset,
                    );
                }
            }
        } else if take < PAGE_SIZE {
            done = true;
            proof {
                assert(remaining@.len() == 0);
                assert(old_offset + take == n);
                assert(!spec_uris_contain(page@, target@));
                assert forall|q: int|
                    0 <= q < take implies #[trigger] all[old_offset + q]@ != target@ by {
                    assert(page@[q] == all[old_offset + q]);
                    if all[old_offset + q]@ == target@ {
                        assert(page@[q]@ == target@);
                        assert(spec_uris_contain(page@, target@));
                    }
                }
                assert(first == n) by {
                    if first < n {
                        assert(all[first]@ == target@);
                        if first < old_offset {
                            assert(all[first]@ != target@);
                        } else {
                            assert(all[first]@ == page@[first - old_offset]@);
                        }
                    }
                }
                assert(!spec_uris_contain(all, target@)) by {
                    if spec_uris_contain(all, target@) {
                        let w = choose|w: int| 0 <= w < all.len() && all[w]@ == target@;
                        assert(all[w]@ != target@);
                    }
                }
                if n == 0 {
                    assert(old_requests == 0) by {
                        vstd::arithmetic::mul::lemma_mul_equality_converse(
                            PAGE_SIZE as int,
                            old_requests,
                            0,
                        );
                    }
                } else if take == 0 {
                    assert(n as int % (PAGE_SIZE as int) == 0 && n as int / (PAGE_SIZE as int)
                        == old_requests) by {
                        vstd::arithmetic::div_mod::lemma_fundamental_div_mod_converse(
                            n as int,
                            PAGE_SIZE as int,
                            old_requests,
                            0,
                        );
                    }
                } else {
                    assert(n as int % (PAGE_SIZE as int) == take && n as int / (PAGE_SIZE
                        as int) == old_requests) by {
                        vstd::arithmetic::div_mod::lemma_fundamental_div_mod_converse(
                            n as int,
                            PAGE_SIZE as int,
                            old_requests,
                            take as int,
                        );
                    }
                    assert((n + PAGE_SIZE - 1) as int / (PAGE_SIZE as int) == old_requests
                        + 1) by {
                        vstd::arithmetic::div_mod::lemma_fundamental_div_mod_converse(
                            (n + PAGE_SIZE - 1) as int,
                            PAGE_SIZE as int,
                            old_requests + 1,
                            take as int - 1,
                        );
                    }
                }
            }
        } else {
            offset = offset + PAGE_SIZE;
            proof {
                assert(offset as int == (old_requests + 1) * (PAGE_SIZE as int)) by {
                    vstd::arithmetic::mul::lemma_mul_is_distributive_add_other_way(
                        PAGE_SIZE as int,
                        old_requests,
                        1,
                    );
                }
                assert(!spec_uris_contain(page@, target@));
                assert forall|q: int|
                    0 <= q < PAGE_SIZE implies #[trigger] all[old_offset + q]@ != target@ by {
                    assert(page@[q] == all[old_offset + q]);
                    if all[old_offset + q]@ == target@ {
                        assert(page@[q]@ == target@);
                        assert(spec_uris_contain(page@, target@));
                    }
                }
                assert(first >= offset) by {
                    if first < offset as int {
                        assert(all[first]@ == target@);
                        assert(all[first]@ != target@) by {
                            if first >= old_offset {
                                assert(all[old_offset + (first - old_offset)]@ != target@);
                            }
                        }
                    }
                }
            }
        }
    }
    (found, requests)
}

/// Outcome of an idempotent append.
#[derive(Debug, Clone, Copy, PartialEq, Eq, Structural)]
pub enum AppendOutcome {
    /// The track was written to the playlist.
    Added,
    /// The track was already present; nothing was written.
    AlreadyExists,
}

/// The playlist contents an append acts on, as the server holds them.
#[derive(Debug, Clone, PartialEq)]
pub struct PlaylistModel {
    /// The URIs of the playlist, in order.
    pub uris: Vec<String>,
}

/// What the playlist holds after an append: unchanged when the URI is
/// already present, extended by it at the end otherwise.
pub open spec fn spec_append_uris(uris: Seq<Seq<char>>, uri: Seq<char>) -> Seq<Seq<char>> {
    if uris.contains(uri) {
        uris
    } else {
        uris.push(uri)
    }
}

/// An append writes exactly when the URI is absent.
pub open spec fn spec_append_writes(uris: Seq<Seq<char>>, uri: Seq<char>) -> bool {
    !uris.contains(uri)
}

impl PlaylistModel {
    /// An empty playlist.
    pub fn new() -> (m: PlaylistModel)
        ensures
            m.uris@.len() == 0,
    {
        PlaylistModel { uris: Vec::new() }
    }

    /// The playlist's URIs as character sequences.
    pub open spec fn view_uris(&self) -> Seq<Seq<char>> {
        self.uris@.map_values(|u: String| u@)
    }

    /// The duplicate-checked append: a URI already present is reported,
    /// not rewritten; an absent one is appended with exactly one write.
    /// The write count is returned beside the outcome.
    pub fn append(&mut self, uri: &str) -> (r: (AppendOutcome, usize))
        ensures
            final(self).view_uris() == spec_append_uris(old(self).view_uris(), uri@),
            r.0 is Added <==> spec_append_writes(old(self).view_uris(), uri@),
            r.1 == (if spec_append_writes(old(self).view_uris(), uri@) {
                1int
            } else {
                0int
            }),
    {
        let ghost uris0 = self.view_uris();
        if page_contains_uri(&self.uris, uri) {
            proof {
                let i = choose|i: int| 0 <= i < self.uris@.len() && self.uris@[i]@ == uri@;
                assert(uris0[i] == uri@);
                assert(uris0.contains(uri@));
            }
            (AppendOutcome::AlreadyExists, 0)
        } else {
            proof {
                if uris0.contains(uri@) {
                    let i = choose|i: int| 0 <= i < uris0.len() && uris0[i] == uri@;
                    assert(self.uris@[i]@ == uri@);
                }
            }
            let owned: String = uri.to_owned();
            self.uris.push(owned);
            proof {
                assert(self.view_uris() =~= uris0.push(uri@));
            }
            (AppendOutcome::Added, 1)
        }
    }
}

/// Law: append is idempotent. After an append of a URI, the URI is
/// present; a second append of the same URI reports it as already there,
/// performs no write, and leaves the playlist exactly as the first append
/// left it.
pub proof fn lemma_append_idempotent(uris: Seq<Seq<char>>, uri: Seq<char>)
    ensures
        spec_append_uris(uris, uri).contains(uri),
        !spec_append_writes(spec_append_uris(uris, uri), uri),
        spec_append_uris(spec_append_uris(uris, uri), uri) == spec_append_uris(uris, uri),
{
    let after = spec_append_uris(uris, uri);
    if uris.contains(uri) {
        assert(after.contains(uri));
    } else {
        assert(after[after.len() - 1] == uri);
        assert(after.contains(uri));
    }
}

/// Plan a full replacement of a playlist's contents. An empty URI list is
/// rejected before any request exists; otherwise the plan is a single PUT
/// carrying exactly the given URIs.
pub fn plan_replace_all(playlist_id: &str, track_uris: Vec<String>) -> (r: Result<
    ApiRequest,
    PlaylistError,
>)
    ensures
        r is Err <==> track_uris@.len() == 0,
        r is Err ==> (r->Err_0 matches PlaylistError::ReplaceTracksFailed(m) && m@
            == "Cannot replace playlist with empty track list"@),
        r is Ok ==> r->Ok_0.method is Put && r->Ok_0.url@ == spec_playlist_tracks_url(
            playlist_id@,
        ) && r->Ok_0.uris_body == Some(track_uris),
{
    if track_uris.len() == 0 {
        return Err(
            PlaylistError::ReplaceTracksFailed(
                String::from_str("Cannot replace playlist with empty track list"),
            ),
        );
    }
    let url = playlist_tracks_url(playlist_id);
    Ok(ApiRequest { method: HttpMethod::Put, url, uris_body: Some(track_uris) })
}

/// Plan the write half of an append: a single POST carrying the one URI.
pub fn plan_append_write(playlist_id: &str, track_uri: &str) -> (r: ApiRequest)
    ensures
        r.method is Post,
        r.url@ == spec_playlist_tracks_url(playlist_id@),
        r.uris_body matches Some(b) && b@.len() == 1 && b@[0]@ == track_uri@,
{
    let url = playlist_tracks_url(playlist_id);
    let mut body: Vec<String> = Vec::new();
    body.push(track_uri.to_owned());
    ApiRequest { method: HttpMethod::Post, url, uris_body: Some(body) }
}

/// The prefix every track URI carries.
pub open spec fn spec_track_uri_prefix() -> Seq<char> {
    "spotify:track:"@
}

/// A well-formed track URI: the track prefix followed by a 22-character
/// identifier.
pub open spec fn spec_valid_track_uri(uri: Seq<char>) -> bool {
    spec_has_prefix(uri, spec_track_uri_prefix()) && uri.len() == spec_track_uri_prefix().len()
        + 22
}

/// Check that a track URI is well formed: the track prefix followed by a
/// 22-character identifier. The error message names the URI and which of
/// the two checks failed.
pub fn validate_track_uri(track_uri: &str) -> (r: Result<(), PlaylistError>)
    ensures
        r is Ok <==> spec_valid_track_uri(track_uri@),
        !spec_has_prefix(track_uri@, spec_track_uri_prefix()) ==> (r->Err_0 matches
            PlaylistError::AddTrackFailed(m) && m@ == "Invalid track URI format: "@ + track_uri@
            + ". Expected format: spotify:track:TRACK_ID"@),
        spec_has_prefix(track_uri@, spec_track_uri_prefix()) && track_uri@.len()
            != spec_track_uri_prefix().len() + 22 ==> (r->Err_0 matches
            PlaylistError::AddTrackFailed(m) && m@ == "Invalid track ID in URI: "@ + track_uri@
            + ". Track ID should be 22 characters long"@),
{
    if !has_prefix(track_uri, "spotify:track:") {
        let mut msg = String::from_str("Invalid track URI format: ");
        msg.append(track_uri);
        msg.append(". Expected format: spotify:track:TRACK_ID");
        return Err(PlaylistError::AddTrackFailed(msg));
    }
    proof {
        reveal_strlit("spotify:track:");
    }
    let n = track_uri.unicode_len();
    if n != 14 + 22 {
        let mut msg = String::from_str("Invalid track ID in URI: ");
        msg.append(track_uri);
        msg.append(". Track ID should be 22 characters long");
        return Err(PlaylistError::AddTrackFailed(msg));
    }
    Ok(())
}

/// Strip the track prefix from a URI, returning the identifier; a URI
/// without the prefix is refused with a message naming it.
pub fn extract_track_id_from_uri(track_uri: &str) -> (r: Result<String, PlaylistError>)
    ensures
        r is Ok <==> spec_has_prefix(track_uri@, spec_track_uri_prefix()),
        r is Ok ==> r->Ok_0@ == track_uri@.subrange(
            spec_track_uri_prefix().len() as int,
            track_uri@.len() as int,
        ),
        r is Err ==> (r->Err_0 matches PlaylistError::AddTrackFailed(m) && m@
            == "Invalid Spotify track URI format: "@ + track_uri@),
{
    if !has_prefix(track_uri, "spotify:track:") {
        let mut msg = String::from_str("Invalid Spotify track URI format: ");
        msg.append(track_uri);
        return Err(PlaylistError::AddTrackFailed(msg));
    }
    proof {
        reveal_strlit("spotify:track:");
    }
    let n = track_uri.unicode_len();
    let id = track_uri.substring_char(14, n);
    Ok(id.to_owned())
}

/// The last tracks of a listing: all of them when no more than `limit`,
/// otherwise the final `limit` of them in order.
pub fn recent_suffix(tracks: Vec<TrackInfo>, limit: usize) -> (r: Vec<TrackInfo>)
    ensures
        tracks@.len() <= limit ==> r@ == tracks@,
        tracks@.len() > limit ==> r@ == tracks@.subrange(
            tracks@.len() - limit,
            tracks@.len() as int,
        ),
{
    let ghost all = tracks@;
    if tracks.len() <= limit {
        return tracks;
    }
    let mut remaining = tracks;
    let drop_count = remaining.len() - limit;
    let mut dropped: usize = 0;
    while dropped < drop_count
        invariant
            dropped <= drop_count,
            drop_count == all.len() - limit,
            remaining@ == all.subrange(dropped as int, all.len() as int),
        decreases drop_count - dropped,
    {
        let _ = remaining.remove(0);
        proof {
            assert(remaining@ =~= all.subrange(dropped + 1, all.len() as int));
        }
        dropped = dropped + 1;
    }
    remaining
}

} // verus!
