//! Core data model: tracks, configuration, playlist statistics and the
//! outcomes of playlist mutations.

use vstd::prelude::*;
use vstd::string::*;
use crate::text::{find_string_index, join_comma, spec_dec, spec_join_comma, u64_to_string, u64_to_string_pad2};

verus! {

/// One track as the streaming API describes it. Immutable once built;
/// a plain value type.
#[derive(Debug, Clone, PartialEq)]
pub struct TrackInfo {
    /// Track identifier.
    pub id: String,
    /// Track URI (`spotify:track:...`).
    pub uri: String,
    /// Track name.
    pub name: String,
    /// Ordered artist names.
    pub artists: Vec<String>,
    /// Album name.
    pub album: String,
    /// Duration in milliseconds.
    pub duration_ms: u32,
    /// Popularity, 0 to 100, when the API reports one.
    pub popularity: Option<u8>,
    /// Preview reference, when the API reports one.
    pub preview_url: Option<String>,
    /// Explicit-content flag.
    pub explicit: bool,
}

impl TrackInfo {
    /// Build a track from its required fields; the optional fields start
    /// absent and the explicit flag false.
    pub fn new(
        id: String,
        uri: String,
        name: String,
        artists: Vec<String>,
        album: String,
        duration_ms: u32,
    ) -> (t: TrackInfo)
        ensures
            t.id == id,
            t.uri == uri,
            t.name == name,
            t.artists == artists,
            t.album == album,
            t.duration_ms == duration_ms,
            t.popularity is None,
            t.preview_url is None,
            !t.explicit,
    {
        TrackInfo {
            id,
            uri,
            name,
            artists,
            album,
            duration_ms,
            popularity: None,
            preview_url: None,
            explicit: false,
        }
    }

    /// The first listed artist, if any.
    pub fn primary_artist(&self) -> (r: Option<&String>)
        ensures
            self.artists@.len() == 0 <==> r is None,
            self.artists@.len() > 0 ==> r == Some(&self.artists[0]),
    {
        if self.artists.len() > 0 {
            Some(&self.artists[0])
        } else {
            None
        }
    }

    /// All artists as one comma-separated string.
    pub fn artists_string(&self) -> (r: String)
        ensures
            r@ == spec_join_comma(self.artists@.map_values(|a: String| a@)),
    {
        join_comma(&self.artists)
    }

    /// The duration as minutes and zero-padded seconds.
    pub fn duration_formatted(&self) -> (r: String)
        ensures
            r@ == spec_dec((self.duration_ms / 1000 / 60) as nat) + ":"@ + (if self.duration_ms
                / 1000 % 60 < 10 {
                seq!['0'] + spec_dec((self.duration_ms / 1000 % 60) as nat)
            } else {
                spec_dec((self.duration_ms / 1000 % 60) as nat)
            }),
    {
        let total_seconds = self.duration_ms / 1000;
        let minutes = total_seconds / 60;
        let seconds = total_seconds % 60;
        let mut out = u64_to_string(minutes as u64);
        out.append(":");
        let sec = u64_to_string_pad2(seconds as u64);
        out.append(sec.as_str());
        out
    }
}

/// A duration in hours, minutes and seconds, the hours omitted when zero.
pub open spec fn spec_duration_hms(total_ms: int) -> Seq<char> {
    let ts = total_ms / 1000;
    let h = ts / 3600;
    let m = (ts % 3600) / 60;
    let s = ts % 60;
    if h > 0 {
        spec_dec(h as nat) + "h "@ + spec_dec(m as nat) + "m "@ + spec_dec(s as nat) + "s"@
    } else {
        spec_dec(m as nat) + "m "@ + spec_dec(s as nat) + "s"@
    }
}

/// Render a millisecond duration as hours, minutes and seconds, the hours
/// omitted when zero.
pub fn duration_hms(total_ms: u64) -> (r: String)
    ensures
        r@ == spec_duration_hms(total_ms as int),
{
    let total_seconds = total_ms / 1000;
    let hours = total_seconds / 3600;
    let minutes = (total_seconds % 3600) / 60;
    let seconds = total_seconds % 60;
    let mut out = String::new();
    if hours > 0 {
        let h = u64_to_string(hours);
        out.append(h.as_str());
        out.append("h ");
    }
    let m = u64_to_string(minutes);
    out.append(m.as_str());
    out.append("m ");
    let sec = u64_to_string(seconds);
    out.append(sec.as_str());
    out.append("s");
    out
}

/// Summary statistics of a playlist, computed once from its tracks.
#[derive(Debug, Clone, PartialEq)]
pub struct PlaylistStats {
    /// How many tracks the playlist holds.
    pub total_tracks: usize,
    /// How many distinct artist names occur across all tracks.
    pub unique_artists: usize,
    /// Total duration of all tracks in milliseconds.
    pub total_duration_ms: u64,
    /// Mean popularity of the tracks that report one, in tenths of a
    /// point, when any does.
    pub average_popularity_tenths: Option<u64>,
    /// An artist occurring at least as often as any other, when there is
    /// one.
    pub most_common_artist: Option<String>,
    /// How many tracks carry the explicit flag.
    pub explicit_tracks: usize,
}

/// Total duration of a track sequence in milliseconds.
pub open spec fn spec_total_duration(s: Seq<TrackInfo>) -> int
    decreases s.len(),
{
    if s.len() == 0 {
        0
    } else {
        spec_total_duration(s.drop_last()) + s.last().duration_ms
    }
}

/// How many tracks of a sequence carry the explicit flag.
pub open spec fn spec_explicit_count(s: Seq<TrackInfo>) -> int
    decreases s.len(),
{
    if s.len() == 0 {
        0
    } else {
        spec_explicit_count(s.drop_last()) + (if s.last().explicit {
            1int
        } else {
            0
        })
    }
}

/// Sum of the popularity of the tracks that report one.
pub open spec fn spec_pop_sum(s: Seq<TrackInfo>) -> int
    decreases s.len(),
{
    if s.len() == 0 {
        0
    } else {
        spec_pop_sum(s.drop_last()) + (match s.last().popularity {
            Some(p) => p as int,
            None => 0,
        })
    }
}

/// How many tracks of a sequence report a popularity.
pub open spec fn spec_pop_count(s: Seq<TrackInfo>) -> int
    decreases s.len(),
{
    if s.len() == 0 {
        0
    } else {
        spec_pop_count(s.drop_last()) + (if s.last().popularity is Some {
            1int
        } else {
            0
        })
    }
}

/// The set of artist names in one artist list.
pub open spec fn spec_names_of(artists: Seq<String>) -> Set<Seq<char>>
    decreases artists.len(),
{
    if artists.len() == 0 {
        Set::empty()
    } else {
        spec_names_of(artists.drop_last()).insert(artists.last()@)
    }
}

/// The set of artist names across a track sequence.
pub open spec fn spec_artist_names(s: Seq<TrackInfo>) -> Set<Seq<char>>
    decreases s.len(),
{
    if s.len() == 0 {
        Set::empty()
    } else {
        spec_artist_names(s.drop_last()).union(spec_names_of(s.last().artists@))
    }
}

/// How often a name occurs in one artist list.
pub open spec fn spec_count_in(artists: Seq<String>, name: Seq<char>) -> int
    decreases artists.len(),
{
    if artists.len() == 0 {
        0
    } else {
        spec_count_in(artists.drop_last(), name) + (if artists.last()@ == name {
            1int
        } else {
            0
        })
    }
}

/// How often a name occurs across a track sequence's artist lists.
pub open spec fn spec_artist_count(s: Seq<TrackInfo>, name: Seq<char>) -> int
    decreases s.len(),
{
    if s.len() == 0 {
        0
    } else {
        spec_artist_count(s.drop_last(), name) + spec_count_in(s.last().artists@, name)
    }
}

/// A tally cut off at the `u64` range.
pub open spec fn spec_sat_u64(x: int) -> int {
    if x > u64::MAX {
        u64::MAX as int
    } else {
        x
    }
}

/// A name outside an artist list's name set never occurs in it.
proof fn lemma_count_in_zero(artists: Seq<String>, name: Seq<char>)
    requires
        !spec_names_of(artists).contains(name),
    ensures
        spec_count_in(artists, name) == 0,
    decreases artists.len(),
{
    if artists.len() > 0 {
        lemma_count_in_zero(artists.drop_last(), name);
    }
}

/// A name outside a track sequence's artist-name set never occurs in it.
proof fn lemma_artist_count_zero(s: Seq<TrackInfo>, name: Seq<char>)
    requires
        !spec_artist_names(s).contains(name),
    ensures
        spec_artist_count(s, name) == 0,
    decreases s.len(),
{
    if s.len() > 0 {
        lemma_artist_count_zero(s.drop_last(), name);
        lemma_count_in_zero(s.last().artists@, name);
    }
}

/// Occurrence counts are never negative.
proof fn lemma_count_in_nonneg(artists: Seq<String>, name: Seq<char>)
    ensures
        spec_count_in(artists, name) >= 0,
    decreases artists.len(),
{
    if artists.len() > 0 {
        lemma_count_in_nonneg(artists.drop_last(), name);
    }
}

/// Cross-sequence occurrence counts are never negative.
proof fn lemma_artist_count_nonneg(s: Seq<TrackInfo>, name: Seq<char>)
    ensures
        spec_artist_count(s, name) >= 0,
    decreases s.len(),
{
    if s.len() > 0 {
        lemma_artist_count_nonneg(s.drop_last(), name);
        lemma_count_in_nonneg(s.last().artists@, name);
    }
}

/// Pushing an element onto a sequence inserts it into the sequence's set.
proof fn lemma_to_set_push<A>(s: Seq<A>, x: A)
    ensures
        s.push(x).to_set() =~= s.to_set().insert(x),
{
    assert forall|y: A| #[trigger] s.push(x).to_set().contains(y) implies s.to_set().contains(y)
        || y == x by {
        assert(s.push(x).contains(y));
        let w = choose|i: int| 0 <= i < s.push(x).len() && s.push(x)[i] == y;
        if w < s.len() {
            assert(s[w] == y);
            assert(s.contains(y));
        }
    }
    assert forall|y: A| s.to_set().contains(y) || y == x implies #[trigger] s.push(x).to_set()
        .contains(y) by {
        if y == x {
            assert(s.push(x)[s.len() as int] == y);
            assert(s.push(x).contains(y));
        } else {
            assert(s.contains(y));
            let w = choose|i: int| 0 <= i < s.len() && s[i] == y;
            assert(s.push(x)[w] == y);
            assert(s.push(x).contains(y));
        }
    }
}

/// A name is in the set of a string list's views exactly when some list
/// entry has it as its view.
proof fn lemma_map_view_contains(v: Seq<String>, t: Seq<char>)
    ensures
        v.map_values(|x: String| x@).to_set().contains(t) <==> exists|i: int|
            0 <= i < v.len() && (#[trigger] v[i])@ == t,
{
    let m = v.map_values(|x: String| x@);
    if m.to_set().contains(t) {
        assert(m.contains(t));
        let wi = choose|w: int| 0 <= w < m.len() && m[w] == t;
        assert(v[wi]@ == t);
    }
    if exists|i: int| 0 <= i < v.len() && (#[trigger] v[i])@ == t {
        let wi = choose|i: int| 0 <= i < v.len() && (#[trigger] v[i])@ == t;
        assert(m[wi] == t);
        assert(m.contains(t));
    }
}

impl PlaylistStats {
    /// Statistics of an empty playlist.
    pub fn new() -> (s: PlaylistStats)
        ensures
            s.total_tracks == 0,
            s.unique_artists == 0,
            s.total_duration_ms == 0,
            s.average_popularity_tenths is None,
            s.most_common_artist is None,
            s.explicit_tracks == 0,
    {
        PlaylistStats {
            total_tracks: 0,
            unique_artists: 0,
            total_duration_ms: 0,
            average_popularity_tenths: None,
            most_common_artist: None,
            explicit_tracks: 0,
        }
    }

    /// Compute a playlist's statistics from its tracks: the exact track,
    /// explicit and duration totals, the mean popularity in tenths over
    /// the tracks that report one, the number of distinct artist names,
    /// and an artist occurring at least as often as any other (tallies
    /// saturate at the `u64` range). The track-count bound keeps the
    /// duration and popularity sums within `u64`.
    #[verifier::loop_isolation(false)]
    #[verifier::rlimit(100)]
    pub fn from_tracks(tracks: &Vec<TrackInfo>) -> (s: PlaylistStats)
        requires
            tracks@.len() <= 0xFFFF_FFFF,
        ensures
            s.total_tracks == tracks@.len(),
            s.total_duration_ms == spec_total_duration(tracks@),
            s.explicit_tracks == spec_explicit_count(tracks@),
            s.unique_artists == spec_artist_names(tracks@).len(),
            s.average_popularity_tenths == (if spec_pop_count(tracks@) > 0 {
                Some((spec_pop_sum(tracks@) * 10 / spec_pop_count(tracks@)) as u64)
            } else {
                None::<u64>
            }),
            s.most_common_artist is None <==> s.unique_artists == 0,
            s.most_common_artist matches Some(a) ==> spec_artist_names(tracks@).contains(a@),
            s.most_common_artist matches Some(a) ==> (forall|b: Seq<char>|
                spec_artist_names(tracks@).contains(b) ==> spec_sat_u64(
                    #[trigger] spec_artist_count(tracks@, b),
                ) <= spec_sat_u64(spec_artist_count(tracks@, a@))),
    {
        let n = tracks.len();
        let mut duration_sum: u64 = 0;
        let mut pop_sum: u64 = 0;
        let mut pop_count: usize = 0;
        let mut explicit_count: usize = 0;
        let mut names: Vec<String> = Vec::new();
        let mut tallies: Vec<u64> = Vec::new();
        let mut i: usize = 0;
        proof {
            assert(tracks@.subrange(0, 0) =~= Seq::<TrackInfo>::empty());
        }
        while i < n
            invariant
                i <= n,
                duration_sum == spec_total_duration(tracks@.subrange(0, i as int)),
                duration_sum <= i * 0xFFFF_FFFFu64,
                pop_sum == spec_pop_sum(tracks@.subrange(0, i as int)),
                pop_sum <= i * 255u64,
                pop_count == spec_pop_count(tracks@.subrange(0, i as int)),
                pop_count <= i,
                explicit_count == spec_explicit_count(tracks@.subrange(0, i as int)),
                explicit_count <= i,
                names@.len() == tallies@.len(),
                forall|a: int, b: int|
                    0 <= a < b < names@.len() ==> #[trigger] names@[a]@ != #[trigger] names@[b]@,
                names@.map_values(|x: String| x@).to_set() =~= spec_artist_names(
                    tracks@.subrange(0, i as int),
                ),
                forall|j: int|
                    0 <= j < tallies@.len() ==> #[trigger] tallies@[j] == spec_sat_u64(
                        spec_artist_count(tracks@.subrange(0, i as int), names@[j]@),
                    ),
                forall|j: int| 0 <= j < tallies@.len() ==> #[trigger] tallies@[j] >= 1,
            decreases n - i,
        {
            let ghost pre = tracks@.subrange(0, i as int);
            let ghost pre1 = tracks@.subrange(0, i as int + 1);
            proof {
                assert(pre1.drop_last() =~= pre);
                assert(pre1.last() == tracks@[i as int]);
            }
            let t = &tracks[i];
            proof {
                assert((i + 1) * 0xFFFF_FFFFu64 == i * 0xFFFF_FFFFu64 + 0xFFFF_FFFFu64) by {
                    vstd::arithmetic::mul::lemma_mul_is_distributive_add_other_way(
                        0xFFFF_FFFFu64 as int,
                        i as int,
                        1,
                    );
                }
                assert((i + 1) * 255u64 == i * 255u64 + 255u64) by {
                    vstd::arithmetic::mul::lemma_mul_is_distributive_add_other_way(
                        255u64 as int,
                        i as int,
                        1,
                    );
                }
            }
            duration_sum = duration_sum + (t.duration_ms as u64);
            match t.popularity {
                Some(p) => {
                    pop_sum = pop_sum + (p as u64);
                    pop_count = pop_count + 1;
                },
                None => {},
            }
            if t.explicit {
                explicit_count = explicit_count + 1;
            }
            let m = t.artists.len();
            let mut k: usize = 0;
            proof {
                assert(t.artists@.subrange(0, 0) =~= Seq::<String>::empty());
            }
            while k < m
                invariant
                    k <= m,
                    m == t.artists@.len(),
                    names@.len() == tallies@.len(),
                    forall|a: int, b: int|
                        0 <= a < b < names@.len() ==> #[trigger] names@[a]@ != #[trigger] names@[
                            b
                        ]@,
                    names@.map_values(|x: String| x@).to_set() =~= spec_artist_names(pre).union(
                        spec_names_of(t.artists@.subrange(0, k as int)),
                    ),
                    forall|j: int|
                        0 <= j < tallies@.len() ==> #[trigger] tallies@[j] == spec_sat_u64(
                            spec_artist_count(pre, names@[j]@) + spec_count_in(
                                t.artists@.subrange(0, k as int),
                                names@[j]@,
                            ),
                        ),
                    forall|j: int| 0 <= j < tallies@.len() ==> #[trigger] tallies@[j] >= 1,
                decreases m - k,
            {
                let ghost ak = t.artists@.subrange(0, k as int);
                let ghost ak1 = t.artists@.subrange(0, k as int + 1);
                proof {
                    assert(ak1.drop_last() =~= ak);
                    assert(ak1.last() == t.artists@[k as int]);
                }
                let a = &t.artists[k];
                match find_string_index(&names, a.as_str()) {
                    Some(j) => {
                        let old_tally = tallies[j];
                        let new_tally: u64 = if old_tally == u64::MAX {
                            old_tally
                        } else {
                            old_tally + 1
                        };
                        let ghost names0 = names@;
                        let ghost tallies0 = tallies@;
                        tallies[j] = new_tally;
                        proof {
                            lemma_artist_count_nonneg(pre, names0[j as int]@);
                            lemma_count_in_nonneg(ak, names0[j as int]@);
                            assert(spec_count_in(ak1, names0[j as int]@) == spec_count_in(
                                ak,
                                names0[j as int]@,
                            ) + 1);
                            assert forall|x: int| 0 <= x < tallies@.len() && x != j implies
                                #[trigger] tallies@[x] == spec_sat_u64(
                                spec_artist_count(pre, names@[x]@) + spec_count_in(
                                    ak1,
                                    names@[x]@,
                                ),
                            ) by {
                                assert(names@[x]@ != names@[j as int]@);
                                assert(spec_count_in(ak1, names@[x]@) == spec_count_in(
                                    ak,
                                    names@[x]@,
                                ));
                            }
                            assert(spec_names_of(ak1) =~= spec_names_of(ak).insert(
                                a@,
                            ));
                            assert(names@.map_values(|x: String| x@).to_set().contains(a@)) by {
                                assert(names@.map_values(|x: String| x@)[j as int] == a@);
                                assert(names@.map_values(|x: String| x@).contains(a@));
                            }
                            assert(names@.map_values(|x: String| x@).to_set()
                                =~= spec_artist_names(pre).union(spec_names_of(ak1)));
                        }
                    },
                    None => {
                        let ghost names0 = names@;
                        names.push(a.clone());
                        tallies.push(1);
                        proof {
                            assert(!spec_artist_names(pre).union(spec_names_of(ak)).contains(
                                a@,
                            )) by {
                                lemma_map_view_contains(names0, a@);
                            }
                            lemma_artist_count_zero(pre, a@);
                            lemma_count_in_zero(ak, a@);
                            assert(spec_count_in(ak1, a@) == 1);
                            assert(names@.map_values(|x: String| x@) =~= names0.map_values(
                                |x: String| x@,
                            ).push(a@));
                            assert(names@.map_values(|x: String| x@).to_set()
                                =~= names0.map_values(|x: String| x@).to_set().insert(a@)) by {
                                lemma_to_set_push(names0.map_values(|x: String| x@), a@);
                            }
                            assert(spec_names_of(ak1) =~= spec_names_of(ak).insert(a@));
                            assert(names@.map_values(|x: String| x@).to_set()
                                =~= spec_artist_names(pre).union(spec_names_of(ak1)));
                            assert forall|x: int| 0 <= x < tallies@.len() - 1 implies
                                #[trigger] tallies@[x] == spec_sat_u64(
                                spec_artist_count(pre, names@[x]@) + spec_count_in(
                                    ak1,
                                    names@[x]@,
                                ),
                            ) by {
                                assert(names@[x]@ == names0[x]@);
                                assert(names@[x]@ != a@);
                                assert(spec_count_in(ak1, names@[x]@) == spec_count_in(
                                    ak,
                                    names@[x]@,
                                ));
                            }
                        }
                    },
                }
                k = k + 1;
            }
            proof {
                assert(t.artists@.subrange(0, m as int) =~= t.artists@);
                assert(spec_artist_names(pre1) =~= spec_artist_names(pre).union(
                    spec_names_of(t.artists@),
                ));
                assert(forall|nm: Seq<char>|
                    spec_artist_count(pre1, nm) == spec_artist_count(pre, nm) + spec_count_in(
                        t.artists@,
                        nm,
                    ));
            }
            i = i + 1;
        }
        proof {
            assert(tracks@.subrange(0, n as int) =~= tracks@);
        }
        let unique_artists = names.len();
        proof {
            assert(names@.map_values(|x: String| x@).no_duplicates());
            names@.map_values(|x: String| x@).unique_seq_to_set();
        }
        let most_common_artist: Option<String> = if names.len() == 0 {
            None
        } else {
            let mut best: usize = 0;
            let mut j: usize = 1;
            while j < tallies.len()
                invariant
                    1 <= j <= tallies@.len(),
                    best < tallies@.len(),
                    tallies@.len() == names@.len(),
                    names@.len() >= 1,
                    forall|x: int| 0 <= x < j ==> #[trigger] tallies@[x] <= tallies@[best as int],
                decreases tallies@.len() - j,
            {
                if tallies[j] > tallies[best] {
                    best = j;
                }
                j = j + 1;
            }
            let picked = names[best].clone();
            proof {
                assert(spec_artist_names(tracks@).contains(picked@)) by {
                    lemma_map_view_contains(names@, picked@);
                    assert(names@[best as int]@ == picked@);
                }
                assert forall|b: Seq<char>|
                    spec_artist_names(tracks@).contains(b) implies spec_sat_u64(
                    #[trigger] spec_artist_count(tracks@, b),
                ) <= spec_sat_u64(spec_artist_count(tracks@, picked@)) by {
                    lemma_map_view_contains(names@, b);
                    let bidx = choose|w: int| 0 <= w < names@.len() && (#[trigger] names@[w])@
                        == b;
                    assert(tallies@[bidx] == spec_sat_u64(spec_artist_count(tracks@, b)));
                    assert(tallies@[best as int] == spec_sat_u64(
                        spec_artist_count(tracks@, picked@),
                    ));
                }
            }
            Some(picked)
        };
        let average_popularity_tenths: Option<u64> = if pop_count > 0 {
            proof {
                assert(pop_sum as int * 10 <= 0xFFFF_FFFFu64 as int * 255 * 10) by {
                    vstd::arithmetic::mul::lemma_mul_inequality(
                        i as int,
                        0xFFFF_FFFFu64 as int,
                        255,
                    );
                }
            }
            Some(pop_sum * 10 / (pop_count as u64))
        } else {
            None
        };
        PlaylistStats {
            total_tracks: n,
            unique_artists,
            total_duration_ms: duration_sum,
            average_popularity_tenths,
            most_common_artist,
            explicit_tracks: explicit_count,
        }
    }

    /// The total duration as hours, minutes and seconds.
    pub fn duration_formatted(&self) -> (r: String)
        ensures
            r@ == spec_duration_hms(self.total_duration_ms as int),
    {
        duration_hms(self.total_duration_ms)
    }
}

/// The generated discovery playlist: its tracks, the seeds that produced
/// it, and its statistics, computed once at construction.
#[derive(Debug, Clone, PartialEq)]
pub struct DiscoveryPlaylist {
    /// The generated tracks.
    pub tracks: Vec<TrackInfo>,
    /// The seed identifiers the run used.
    pub seed_tracks: Vec<String>,
    /// Statistics of the generated tracks.
    pub stats: PlaylistStats,
}

impl DiscoveryPlaylist {
    /// Build the discovery playlist from the generated tracks and the
    /// seeds that produced them, computing its statistics once.
    pub fn new(tracks: Vec<TrackInfo>, seed_tracks: Vec<String>) -> (d: DiscoveryPlaylist)
        requires
            tracks@.len() <= 0xFFFF_FFFF,
        ensures
            d.tracks == tracks,
            d.seed_tracks == seed_tracks,
            d.stats.total_tracks == tracks@.len(),
            d.stats.total_duration_ms == spec_total_duration(tracks@),
            d.stats.explicit_tracks == spec_explicit_count(tracks@),
            d.stats.unique_artists == spec_artist_names(tracks@).len(),
            d.stats.average_popularity_tenths == (if spec_pop_count(tracks@) > 0 {
                Some((spec_pop_sum(tracks@) * 10 / spec_pop_count(tracks@)) as u64)
            } else {
                None::<u64>
            }),
            d.stats.most_common_artist is None <==> d.stats.unique_artists == 0,
            d.stats.most_common_artist matches Some(a) ==> spec_artist_names(tracks@).contains(
                a@,
            ),
    {
        let stats = PlaylistStats::from_tracks(&tracks);
        DiscoveryPlaylist { tracks, seed_tracks, stats }
    }

    /// How many tracks were generated.
    pub fn track_count(&self) -> (r: usize)
        ensures
            r == self.tracks@.len(),
    {
        self.tracks.len()
    }

    /// The playlist reached its target length of twenty tracks.
    pub fn is_complete(&self) -> (r: bool)
        ensures
            r == (self.tracks@.len() == 20),
    {
        self.tracks.len() == 20
    }
}

/// Statistics of both playlists side by side, for reporting.
#[derive(Debug, Clone, PartialEq)]
pub struct PlaylistsSummary {
    /// Statistics of the collaborative playlist.
    pub collaborative: PlaylistStats,
    /// Statistics of the discovery playlist.
    pub discovery: PlaylistStats,
}

impl PlaylistsSummary {
    /// Tracks across both playlists.
    pub fn total_tracks(&self) -> (r: usize)
        requires
            self.collaborative.total_tracks + self.discovery.total_tracks <= usize::MAX,
        ensures
            r == self.collaborative.total_tracks + self.discovery.total_tracks,
    {
        self.collaborative.total_tracks + self.discovery.total_tracks
    }

    /// Distinct artists of each playlist, added together; artists shared
    /// by both are counted twice.
    pub fn total_unique_artists(&self) -> (r: usize)
        requires
            self.collaborative.unique_artists + self.discovery.unique_artists <= usize::MAX,
        ensures
            r == self.collaborative.unique_artists + self.discovery.unique_artists,
    {
        self.collaborative.unique_artists + self.discovery.unique_artists
    }

    /// Total duration across both playlists in milliseconds.
    pub fn total_duration_ms(&self) -> (r: u64)
        requires
            self.collaborative.total_duration_ms + self.discovery.total_duration_ms <= u64::MAX,
        ensures
            r == self.collaborative.total_duration_ms + self.discovery.total_duration_ms,
    {
        self.collaborative.total_duration_ms + self.discovery.total_duration_ms
    }

    /// The total duration across both playlists, rendered.
    pub fn total_duration_formatted(&self) -> (r: String)
        requires
            self.collaborative.total_duration_ms + self.discovery.total_duration_ms <= u64::MAX,
        ensures
            r@ == spec_duration_hms(
                self.collaborative.total_duration_ms + self.discovery.total_duration_ms,
            ),
    {
        duration_hms(self.total_duration_ms())
    }

    /// One playlist's block of the summary text.
    fn stats_block(stats: &PlaylistStats) -> (r: String)
        ensures
            r@ == spec_dec(stats.total_tracks as nat) + " tracks from "@ + spec_dec(
                stats.unique_artists as nat,
            ) + " unique artists
• Total duration: "@ + spec_duration_hms(
                stats.total_duration_ms as int,
            ) + "
• "@ + spec_dec(stats.explicit_tracks as nat)
                + " explicit tracks
• Most common artist: "@ + (match stats.most_common_artist {
                Some(a) => a@,
                None => "None"@,
            }),
    {
        let mut out = u64_to_string(stats.total_tracks as u64);
        out.append(" tracks from ");
        let ua = u64_to_string(stats.unique_artists as u64);
        out.append(ua.as_str());
        out.append(" unique artists
• Total duration: ");
        let dur = stats.duration_formatted();
        out.append(dur.as_str());
        out.append("
• ");
        let ex = u64_to_string(stats.explicit_tracks as u64);
        out.append(ex.as_str());
        out.append(" explicit tracks
• Most common artist: ");
        match &stats.most_common_artist {
            Some(a) => out.append(a.as_str()),
            None => out.append("None"),
        }
        out
    }

    /// Render the two playlists' statistics for display.
    #[verifier::rlimit(100)]
    pub fn format_summary(&self) -> (r: String)
        ensures
            r@ == "📊 **Playlist Summary**
🎵 **Collaborative Playlist:**
• "@
                + spec_dec(self.collaborative.total_tracks as nat) + " tracks from "@ + spec_dec(
                self.collaborative.unique_artists as nat,
            ) + " unique artists
• Total duration: "@ + spec_duration_hms(
                self.collaborative.total_duration_ms as int,
            ) + "
• "@ + spec_dec(self.collaborative.explicit_tracks as nat)
                + " explicit tracks
• Most common artist: "@ + (match self
                .collaborative
                .most_common_artist {
                Some(a) => a@,
                None => "None"@,
            }) + "

🔍 **Discovery Playlist:**
• "@ + spec_dec(
                self.discovery.total_tracks as nat,
            ) + " tracks from "@ + spec_dec(self.discovery.unique_artists as nat)
                + " unique artists
• Total duration: "@ + spec_duration_hms(
                self.discovery.total_duration_ms as int,
            ) + "
• "@ + spec_dec(self.discovery.explicit_tracks as nat)
                + " explicit tracks
• Most common artist: "@ + (match self
                .discovery
                .most_common_artist {
                Some(a) => a@,
                None => "None"@,
            }),
    {
        let mut out = String::from_str("📊 **Playlist Summary**
🎵 **Collaborative Playlist:**
• ");
        let collab = Self::stats_block(&self.collaborative);
        out.append(collab.as_str());
        out.append("

🔍 **Discovery Playlist:**
• ");
        let disc = Self::stats_block(&self.discovery);
        out.append(disc.as_str());
        out
    }
}

/// Service configuration, loaded once at startup and passed in as a value.
#[derive(Debug, Clone, PartialEq)]
pub struct BotConfig {
    /// Chat-platform bot token.
    pub discord_token: String,
    /// API client identifier.
    pub spotify_client_id: String,
    /// API client secret.
    pub spotify_client_secret: String,
    /// Long-lived refresh token.
    pub spotify_refresh_token: String,
    /// Channel watched for track links.
    pub target_channel_id: u64,
    /// Identifier of the collaborative playlist.
    pub collaborative_playlist_id: String,
    /// Identifier of the discovery playlist.
    pub discovery_playlist_id: String,
    /// Calendar expression for the recurring discovery run.
    pub weekly_schedule_cron: String,
    /// Attempt ceiling for API calls.
    pub max_retry_attempts: u32,
    /// Base retry delay in milliseconds.
    pub retry_base_delay_ms: u64,
    /// Maximum retry delay in milliseconds.
    pub retry_max_delay_ms: u64,
}

/// The first validation failure of a configuration, if any.
pub open spec fn spec_config_error(c: BotConfig) -> Option<Seq<char>> {
    if c.discord_token@.len() == 0 {
        Some("Discord token is required"@)
    } else if c.spotify_client_id@.len() == 0 {
        Some("Spotify client ID is required"@)
    } else if c.spotify_client_secret@.len() == 0 {
        Some("Spotify client secret is required"@)
    } else if c.spotify_refresh_token@.len() == 0 {
        Some("Spotify refresh token is required"@)
    } else if c.target_channel_id == 0 {
        Some("Target channel ID is required"@)
    } else if c.collaborative_playlist_id@.len() == 0 {
        Some("Collaborative playlist ID is required"@)
    } else if c.discovery_playlist_id@.len() == 0 {
        Some("Discovery playlist ID is required"@)
    } else if c.max_retry_attempts == 0 {
        Some("Max retry attempts must be greater than 0"@)
    } else if c.retry_base_delay_ms == 0 {
        Some("Retry base delay must be greater than 0"@)
    } else {
        None
    }
}

impl BotConfig {
    /// A configuration with the default schedule and retry policy and all
    /// identifying fields empty.
    pub fn new() -> (c: BotConfig)
        ensures
            c.discord_token@.len() == 0,
            c.spotify_client_id@.len() == 0,
            c.spotify_client_secret@.len() == 0,
            c.spotify_refresh_token@.len() == 0,
            c.target_channel_id == 0,
            c.collaborative_playlist_id@.len() == 0,
            c.discovery_playlist_id@.len() == 0,
            c.weekly_schedule_cron@ == "0 0 12 * * MON"@,
            c.max_retry_attempts == 3,
            c.retry_base_delay_ms == 1000,
            c.retry_max_delay_ms == 30000,
    {
        BotConfig {
            discord_token: String::new(),
            spotify_client_id: String::new(),
            spotify_client_secret: String::new(),
            spotify_refresh_token: String::new(),
            target_channel_id: 0,
            collaborative_playlist_id: String::new(),
            discovery_playlist_id: String::new(),
            weekly_schedule_cron: String::from_str("0 0 12 * * MON"),
            max_retry_attempts: 3,
            retry_base_delay_ms: 1000,
            retry_max_delay_ms: 30000,
        }
    }

    /// Check that every required field is set, reporting the first failure.
    pub fn validate(&self) -> (r: Result<(), String>)
        ensures
            r is Ok <==> spec_config_error(*self) is None,
            r is Err ==> r->Err_0@ == spec_config_error(*self)->0,
    {
        if self.discord_token.as_str().is_empty() {
            return Err(String::from_str("Discord token is required"));
        }
        if self.spotify_client_id.as_str().is_empty() {
            return Err(String::from_str("Spotify client ID is required"));
        }
        if self.spotify_client_secret.as_str().is_empty() {
            return Err(String::from_str("Spotify client secret is required"));
        }
        if self.spotify_refresh_token.as_str().is_empty() {
            return Err(String::from_str("Spotify refresh token is required"));
        }
        if self.target_channel_id == 0 {
            return Err(String::from_str("Target channel ID is required"));
        }
        if self.collaborative_playlist_id.as_str().is_empty() {
            return Err(String::from_str("Collaborative playlist ID is required"));
        }
        if self.discovery_playlist_id.as_str().is_empty() {
            return Err(String::from_str("Discovery playlist ID is required"));
        }
        if self.max_retry_attempts == 0 {
            return Err(String::from_str("Max retry attempts must be greater than 0"));
        }
        if self.retry_base_delay_ms == 0 {
            return Err(String::from_str("Retry base delay must be greater than 0"));
        }
        Ok(())
    }
}

/// Outcome of adding one track to a playlist.
#[derive(Debug, Clone)]
pub enum AddTrackResult {
    /// The track was appended.
    Added(TrackInfo),
    /// The track was already present; nothing was written.
    AlreadyExists(TrackInfo),
    /// The write failed; the payload describes why.
    Failed(String),
}

/// The kind of link found in a message, with the identifier it carries.
#[derive(Debug, Clone, PartialEq)]
pub enum SpotifyUrlType {
    Track(String),
    Album(String),
    Playlist(String),
    Artist(String),
    Unsupported,
}

impl SpotifyUrlType {
    /// Only track links may be appended to a playlist.
    pub fn is_addable(&self) -> (r: bool)
        ensures
            r <==> self is Track,
    {
        match self {
            SpotifyUrlType::Track(_) => true,
            _ => false,
        }
    }

    /// The identifier carried by the link, if the kind is supported.
    pub fn id(&self) -> (r: Option<&String>)
        ensures
            match self {
                SpotifyUrlType::Track(id) => r == Some(id),
                SpotifyUrlType::Album(id) => r == Some(id),
                SpotifyUrlType::Playlist(id) => r == Some(id),
                SpotifyUrlType::Artist(id) => r == Some(id),
                SpotifyUrlType::Unsupported => r is None,
            },
    {
        match self {
            SpotifyUrlType::Track(id) => Some(id),
            SpotifyUrlType::Album(id) => Some(id),
            SpotifyUrlType::Playlist(id) => Some(id),
            SpotifyUrlType::Artist(id) => Some(id),
            SpotifyUrlType::Unsupported => None,
        }
    }
}

} // verus!
