//! The discovery pipeline's logic: seed selection from recent additions,
//! per-seed candidate accumulation with deduplication and a size cap, and
//! the statistics of what generation is currently possible. The metadata
//! lookups and searches themselves are HTTP exchanges performed by the
//! surrounding process; their results are fed in as values.

use vstd::prelude::*;
use vstd::string::*;
use crate::endpoints::{spec_playlist_tracks_url, ApiRequest};
use crate::errors::DiscoveryError;
use crate::models::{DiscoveryPlaylist, TrackInfo};
use crate::playlist::{plan_replace_all, recent_suffix};
use crate::text::{contains_string, spec_dec, u64_to_string};

verus! {

/// The API's ceiling on seeds per recommendation query.
pub const MAX_SEED_TRACKS: usize = 5;

/// Seeds are drawn from this many of the most recent tracks.
pub const RECENT_TRACKS_POOL_SIZE: usize = 50;

/// The discovery playlist's target length.
pub const DISCOVERY_TARGET: usize = 20;

/// Relies on rand's index sampler: exactly `amount` distinct indices drawn
/// from below `length`, in unspecified order. The sampler panics when
/// `amount` exceeds `length`, so that is excluded here.
#[verifier::external_body]
fn sample_distinct_indices(length: usize, amount: usize) -> (r: Vec<usize>)
    requires
        amount <= length,
    ensures
        r@.len() == amount,
        forall|i: int| 0 <= i < r@.len() ==> #[trigger] r@[i] < length,
        forall|i: int, j: int| 0 <= i < j < r@.len() ==> r@[i] != r@[j],
{
    rand::seq::index::sample(&mut rand::thread_rng(), length, amount).into_vec()
}

/// The window seeds are drawn from: the last `RECENT_TRACKS_POOL_SIZE`
/// tracks of the listing, or all of them when there are fewer.
pub open spec fn spec_recent_window(tracks: Seq<TrackInfo>) -> Seq<TrackInfo> {
    if tracks.len() <= RECENT_TRACKS_POOL_SIZE {
        tracks
    } else {
        tracks.subrange(tracks.len() - RECENT_TRACKS_POOL_SIZE, tracks.len() as int)
    }
}

/// An identifier occurs among a window's track identifiers.
pub open spec fn spec_window_has_id(window: Seq<TrackInfo>, id: Seq<char>) -> bool {
    exists|j: int| 0 <= j < window.len() && #[trigger] window[j].id@ == id
}

/// No two tracks of the window share an identifier.
pub open spec fn spec_window_ids_distinct(window: Seq<TrackInfo>) -> bool {
    forall|a: int, b: int|
        0 <= a < b < window.len() ==> #[trigger] window[a].id@ != #[trigger] window[b].id@
}

/// Select the seed identifiers for one discovery run: an empty source is
/// rejected; otherwise up to five distinct identifiers drawn uniformly
/// without replacement from the recent window. Which identifiers are
/// drawn depends on the random sample; every property of the draw is
/// stated.
pub fn select_seed_tracks(all_tracks: Vec<TrackInfo>) -> (r: Result<Vec<String>, DiscoveryError>)
    ensures
        r is Err <==> all_tracks@.len() == 0,
        r is Err ==> r->Err_0 == (DiscoveryError::InsufficientSeedTracks { count: 0, required: 1 }),
        r is Ok ==> r->Ok_0@.len() <= MAX_SEED_TRACKS,
        r is Ok ==> r->Ok_0@.len() >= 1,
        r is Ok ==> (forall|i: int, j: int|
            0 <= i < j < r->Ok_0@.len() ==> #[trigger] r->Ok_0@[i]@ != #[trigger] r->Ok_0@[j]@),
        r is Ok ==> (forall|i: int|
            0 <= i < r->Ok_0@.len() ==> spec_window_has_id(
                spec_recent_window(all_tracks@),
                #[trigger] r->Ok_0@[i]@,
            )),
        all_tracks@.len() > 0 && spec_window_ids_distinct(spec_recent_window(all_tracks@))
            ==> r is Ok && r->Ok_0@.len() == (if spec_recent_window(all_tracks@).len()
            < MAX_SEED_TRACKS {
            spec_recent_window(all_tracks@).len() as int
        } else {
            MAX_SEED_TRACKS as int
        }),
{
    if all_tracks.len() == 0 {
        return Err(DiscoveryError::InsufficientSeedTracks { count: 0, required: 1 });
    }
    let ghost all = all_tracks@;
    let window = recent_suffix(all_tracks, RECENT_TRACKS_POOL_SIZE);
    assert(window@ == spec_recent_window(all));
    let seed_count: usize = if window.len() < MAX_SEED_TRACKS {
        window.len()
    } else {
        MAX_SEED_TRACKS
    };
    let picks = sample_distinct_indices(window.len(), seed_count);
    let mut ids: Vec<String> = Vec::new();
    let mut i: usize = 0;
    while i < picks.len()
        invariant
            i <= picks@.len(),
            picks@.len() == seed_count,
            seed_count >= 1,
            seed_count <= MAX_SEED_TRACKS,
            forall|k: int| 0 <= k < picks@.len() ==> #[trigger] picks@[k] < window@.len(),
            forall|k: int, l: int| 0 <= k < l < picks@.len() ==> picks@[k] != picks@[l],
            ids@.len() <= i,
            forall|a: int, b: int| 0 <= a < b < ids@.len() ==> #[trigger] ids@[a]@ != #[trigger] ids@[b]@,
            forall|a: int|
                0 <= a < ids@.len() ==> spec_window_has_id(window@, #[trigger] ids@[a]@),
            i > 0 ==> ids@.len() >= 1,
            spec_window_ids_distinct(window@) ==> ids@.len() == i,
            spec_window_ids_distinct(window@) ==> (forall|a: int|
                0 <= a < i ==> #[trigger] ids@[a]@ == window@[picks@[a] as int].id@),
        decreases picks@.len() - i,
    {
        let idx = picks[i];
        let id = window[idx].id.clone();
        let dup = contains_string(&ids, id.as_str());
        proof {
            if spec_window_ids_distinct(window@) && dup {
                let a = choose|a: int| 0 <= a < ids@.len() && ids@[a]@ == id@;
                let pa = picks@[a] as int;
                assert(window@[pa].id@ == window@[idx as int].id@);
                assert(pa != idx as int);
                if pa < idx as int {
                    assert(window@[pa].id@ != window@[idx as int].id@);
                } else {
                    assert(window@[idx as int].id@ != window@[pa].id@);
                }
            }
        }
        if !dup {
            assert(window@[idx as int].id@ == id@);
            ids.push(id);
        } else {
            assert(ids@.len() >= 1);
        }
        i = i + 1;
    }
    assert(ids@.len() >= 1);
    Ok(ids)
}

/// Every track of `tracks` from position `from` on stands at index one
/// or later of `results`: it was accepted from the results' tail, never
/// from the discarded first result.
/// `t` stands at index one or later of `results`.
pub open spec fn spec_from_tail(results: Seq<TrackInfo>, t: TrackInfo) -> bool {
    exists|j: int|
        #![trigger results[j]]
        1 <= j < results.len() && t == results[j]
}

pub open spec fn spec_accepted_from(
    tracks: Seq<TrackInfo>,
    from: int,
    results: Seq<TrackInfo>,
) -> bool {
    forall|k: int| from <= k < tracks.len() ==> #[trigger] spec_from_tail(results, tracks[k])
}

/// Every identifier offered at index one or later of `results`, up to
/// position `upto`, is represented among the accepted tracks.
pub open spec fn spec_ids_represented(
    tracks: Seq<TrackInfo>,
    results: Seq<TrackInfo>,
    upto: int,
) -> bool {
    forall|j: int|
        #![trigger results[j]]
        1 <= j < upto ==> (exists|k: int|
            #![trigger tracks[k]]
            0 <= k < tracks.len() && tracks[k].id@ == results[j].id@)
}

/// The running candidate set of one discovery run: the accepted tracks
/// and their identifiers, which mirror each other, hold no duplicate
/// identifier, and never exceed the target length.
#[derive(Debug, Clone, PartialEq)]
pub struct CandidateAccum {
    /// The accepted tracks, in acceptance order.
    pub tracks: Vec<TrackInfo>,
    /// The accepted tracks' identifiers, in the same order.
    pub seen_ids: Vec<String>,
}

/// Well-formedness of the candidate set: capped at the target, the
/// identifier list mirrors the tracks, and no identifier repeats.
pub open spec fn spec_candidates_wf(c: CandidateAccum) -> bool {
    &&& c.tracks@.len() <= DISCOVERY_TARGET
    &&& c.seen_ids@.len() == c.tracks@.len()
    &&& (forall|i: int| 0 <= i < c.tracks@.len() ==> #[trigger] c.seen_ids@[i]@ == c.tracks@[i].id@)
    &&& (forall|i: int, j: int|
        0 <= i < j < c.tracks@.len() ==> #[trigger] c.tracks@[i].id@ != #[trigger] c.tracks@[j].id@)
}

impl CandidateAccum {
    /// An empty candidate set.
    pub fn new() -> (c: CandidateAccum)
        ensures
            spec_candidates_wf(c),
            c.tracks@.len() == 0,
    {
        CandidateAccum { tracks: Vec::new(), seen_ids: Vec::new() }
    }

    /// Fold one seed's search results in: the first result is discarded as
    /// the seed echoing back, the rest are accepted in order unless their
    /// identifier was already accepted, and acceptance stops at the target
    /// length. Every accepted track stands at index one or later of the
    /// results; and whenever the set ends below the target, every offered
    /// candidate's identifier is represented in it.
    #[verifier::loop_isolation(false)]
    pub fn ingest_search_results(&mut self, results: Vec<TrackInfo>)
        requires
            spec_candidates_wf(*old(self)),
        ensures
            spec_candidates_wf(*final(self)),
            final(self).tracks@.len() >= old(self).tracks@.len(),
            final(self).tracks@.subrange(0, old(self).tracks@.len() as int) == old(self).tracks@,
            old(self).tracks@.len() == 0 && results@.len() >= 2 && old(self).tracks@.len()
                < DISCOVERY_TARGET ==> final(self).tracks@.len() >= 1,
            results@.len() <= 1 ==> *final(self) == *old(self),
            spec_accepted_from(final(self).tracks@, old(self).tracks@.len() as int, results@),
            final(self).tracks@.len() < DISCOVERY_TARGET ==> spec_ids_represented(
                final(self).tracks@,
                results@,
                results@.len() as int,
            ),
    {
        let ghost tracks0 = self.tracks@;
        let ghost results_view = results@;
        let rlen = results.len();
        if rlen <= 1 {
            return;
        }
        let mut rem = results;
        let _ = rem.remove(0);
        while rem.len() > 0
            invariant
                spec_candidates_wf(*self),
                self.tracks@.len() >= tracks0.len(),
                self.tracks@.subrange(0, tracks0.len() as int) == tracks0,
                rlen >= 2,
                rlen == results_view.len(),
                rem@.len() <= rlen - 1,
                rem@ == results_view.subrange(rlen - rem@.len(), rlen as int),
                tracks0.len() == 0 && self.tracks@.len() == 0 ==> rem@.len() == rlen - 1,
                spec_accepted_from(self.tracks@, tracks0.len() as int, results_view),
                self.tracks@.len() < DISCOVERY_TARGET ==> spec_ids_represented(
                    self.tracks@,
                    results_view,
                    rlen - rem@.len(),
                ),
            decreases rem@.len(),
        {
            if self.tracks.len() >= DISCOVERY_TARGET {
                return;
            }
            let ghost tracks_entry = self.tracks@;
            let ghost j0 = rlen - rem@.len();
            proof {
                assert(rem@[0] == results_view[j0]);
            }
            let t = rem.remove(0);
            proof {
                assert(t == results_view[j0]);
                assert(rem@ =~= results_view.subrange(rlen - rem@.len(), rlen as int));
            }
            let ghost accepted_at: int = -1;
            if !contains_string(&self.seen_ids, t.id.as_str()) {
                let ghost seen_before = self.seen_ids@;
                let ghost tracks_before = self.tracks@;
                let id = t.id.clone();
                self.seen_ids.push(id);
                self.tracks.push(t);
                proof {
                    accepted_at = tracks_before.len() as int;
                    let last = tracks_before.len() as int;
                    assert(self.tracks@[last] == results_view[j0]);
                    assert(self.seen_ids@[last]@ == self.tracks@[last].id@);
                    assert(forall|i: int|
                        0 <= i < last ==> #[trigger] self.seen_ids@[i]@ == self.tracks@[i].id@);
                    assert(forall|i: int|
                        0 <= i < last ==> #[trigger] self.tracks@[i].id@ != self.tracks@[
                            last
                        ].id@) by {
                        assert(forall|i: int|
                            0 <= i < last ==> #[trigger] self.tracks@[i].id@ == seen_before[
                                i
                            ]@) by {
                            assert(forall|i: int|
                                0 <= i < last ==> #[trigger] tracks_before[i].id@
                                    == seen_before[i]@);
                        }
                        assert(forall|i: int|
                            0 <= i < last ==> !(#[trigger] seen_before[i]@ == self.tracks@[
                                last
                            ].id@));
                    }
                    assert(self.tracks@.subrange(0, tracks0.len() as int) == tracks0) by {
                        assert(self.tracks@.subrange(0, tracks0.len() as int)
                            =~= tracks_before.subrange(0, tracks0.len() as int));
                    }
                }
            } else {
                proof {
                    let i = choose|i: int|
                        0 <= i < self.seen_ids@.len() && self.seen_ids@[i]@ == t.id@;
                    assert(self.tracks@.len() > 0);
                    assert(self.tracks@[i].id@ == results_view[j0].id@);
                }
            }
            proof {
                assert(spec_accepted_from(self.tracks@, tracks0.len() as int, results_view))
                    by {
                    assert forall|k: int|
                        tracks0.len() <= k < self.tracks@.len() implies #[trigger] spec_from_tail(
                        results_view,
                        self.tracks@[k],
                    ) by {
                        if k < tracks_entry.len() {
                            assert(self.tracks@[k] == tracks_entry[k]);
                            assert(spec_from_tail(results_view, tracks_entry[k]));
                        } else {
                            assert(self.tracks@[k] == results_view[j0]);
                        }
                    }
                }
                if self.tracks@.len() < DISCOVERY_TARGET {
                    assert(spec_ids_represented(self.tracks@, results_view, rlen - rem@.len()))
                        by {
                    assert forall|j: int| 1 <= j < rlen - rem@.len() implies (exists|k: int|
                        0 <= k < self.tracks@.len() && (#[trigger] self.tracks@[k].id@) == (
                        #[trigger] results_view[j].id@)) by {
                        if j == j0 {
                            if accepted_at >= 0 {
                                assert(self.tracks@[accepted_at].id@ == results_view[j0].id@);
                            } else {
                                let i = choose|i: int|
                                    0 <= i < tracks_entry.len() && tracks_entry[i].id@
                                        == results_view[j0].id@;
                                assert(self.tracks@[i].id@ == results_view[j0].id@);
                            }
                        } else {
                            assert(tracks_entry.len() < DISCOVERY_TARGET);
                            let k0 = choose|k: int|
                                0 <= k < tracks_entry.len() && tracks_entry[k].id@
                                    == results_view[j].id@;
                            assert(self.tracks@[k0].id@ == results_view[j].id@);
                        }
                    }
                    }
                }
            }
        }
    }
}

/// Every gathered track stands at index one or later of some seed's
/// results: nothing is invented, and no discarded first result is kept.
/// `t` was offered at index one or later of some seed's results.
pub open spec fn spec_offered(all: Seq<Vec<TrackInfo>>, t: TrackInfo) -> bool {
    exists|s: int, j: int|
        #![trigger all[s]@[j]]
        0 <= s < all.len() && 1 <= j < all[s]@.len() && t == all[s]@[j]
}

pub open spec fn spec_gathered_from(tracks: Seq<TrackInfo>, all: Seq<Vec<TrackInfo>>) -> bool {
    forall|k: int| 0 <= k < tracks.len() ==> #[trigger] spec_offered(all, tracks[k])
}

/// Every identifier offered at index one or later by the first `upto`
/// seeds' results is represented among the gathered tracks: acceptance
/// is greedy, so a gathering below the target has taken everything
/// distinct it was offered.
pub open spec fn spec_all_offers_represented(
    tracks: Seq<TrackInfo>,
    all: Seq<Vec<TrackInfo>>,
    upto: int,
) -> bool {
    forall|s: int, j: int|
        #![trigger all[s]@[j]]
        0 <= s < upto && 1 <= j < all[s]@.len() ==> (exists|k: int|
            #![trigger tracks[k]]
            0 <= k < tracks.len() && tracks[k].id@ == all[s]@[j].id@)
}

/// The distinct identifiers offered at index one or later across all
/// seeds' results.
pub open spec fn spec_offered_ids(all: Seq<Vec<TrackInfo>>) -> Set<Seq<char>> {
    Set::new(
        |id: Seq<char>|
            exists|s: int, j: int|
                #![trigger all[s]@[j]]
                0 <= s < all.len() && 1 <= j < all[s]@.len() && all[s]@[j].id@ == id,
    )
}

/// Law: a gathering that ends below the target has exhausted its offers.
/// When every offered identifier is represented in a duplicate-free
/// result, the distinct identifiers offered across all seeds number at
/// most the result's length — so a run offered at least the target
/// number of distinct identifiers always reaches the target.
pub proof fn lemma_gather_exhausts_offers(out: Seq<TrackInfo>, all: Seq<Vec<TrackInfo>>)
    requires
        spec_all_offers_represented(out, all, all.len() as int),
        forall|i: int, j: int|
            0 <= i < j < out.len() ==> #[trigger] out[i].id@ != #[trigger] out[j].id@,
    ensures
        spec_offered_ids(all).finite(),
        spec_offered_ids(all).len() <= out.len(),
{
    let out_ids = out.map_values(|t: TrackInfo| t.id@);
    assert(out_ids.no_duplicates());
    out_ids.unique_seq_to_set();
    assert(spec_offered_ids(all).subset_of(out_ids.to_set())) by {
        assert forall|id: Seq<char>| spec_offered_ids(all).contains(id) implies out_ids.to_set()
            .contains(id) by {
            let (s, j) = choose|s: int, j: int|
                #![trigger all[s]@[j]]
                0 <= s < all.len() && 1 <= j < all[s]@.len() && all[s]@[j].id@ == id;
            let k = choose|k: int|
                #![trigger out[k]]
                0 <= k < out.len() && out[k].id@ == all[s]@[j].id@;
            assert(out_ids[k] == id);
            assert(out_ids.contains(id));
        }
    }
    vstd::set_lib::lemma_len_subset(spec_offered_ids(all), out_ids.to_set());
}

/// Gather the discovery candidates from every seed's search results, in
/// seed order. The result holds no duplicate identifier and at most the
/// target number of tracks; every track of it was offered at index one
/// or later of some seed's results; a result below the target carries
/// every offered identifier; and it is empty exactly when no seed's
/// results held more than the discarded echo — an empty gathering is the
/// pipeline's failure. (An empty seed list cannot reach this step from
/// the pipeline, whose seed selection proves its output non-empty.)
#[verifier::loop_isolation(false)]
pub fn gather_candidates(per_seed_results: Vec<Vec<TrackInfo>>) -> (r: Result<
    Vec<TrackInfo>,
    DiscoveryError,
>)
    ensures
        r is Ok ==> r->Ok_0@.len() >= 1 && r->Ok_0@.len() <= DISCOVERY_TARGET,
        r is Ok ==> (forall|i: int, j: int|
            0 <= i < j < r->Ok_0@.len() ==> #[trigger] r->Ok_0@[i].id@ != #[trigger] r->Ok_0@[
                j
            ].id@),
        r is Ok <==> (exists|s: int|
            0 <= s < per_seed_results@.len() && #[trigger] per_seed_results@[s]@.len() >= 2),
        r is Ok ==> spec_gathered_from(r->Ok_0@, per_seed_results@),
        r is Ok && r->Ok_0@.len() < DISCOVERY_TARGET ==> spec_all_offers_represented(
            r->Ok_0@,
            per_seed_results@,
            per_seed_results@.len() as int,
        ),
        r is Err ==> (r->Err_0 matches DiscoveryError::RecommendationGenerationFailed(m) && m@
            == "Could not generate any recommendations using search API"@),
{
    let ghost all = per_seed_results@;
    let mut accum = CandidateAccum::new();
    let mut rem = per_seed_results;
    let n_total = rem.len();
    let mut s: usize = 0;
    while rem.len() > 0 && accum.tracks.len() < DISCOVERY_TARGET
        invariant
            spec_candidates_wf(accum),
            s + rem@.len() == all.len(),
            n_total == all.len(),
            s <= n_total,
            rem@ == all.subrange(s as int, all.len() as int),
            accum.tracks@.len() == 0 ==> (forall|k: int|
                0 <= k < s ==> #[trigger] all[k]@.len() <= 1),
            accum.tracks@.len() >= 1 ==> (exists|k: int|
                0 <= k < s && #[trigger] all[k]@.len() >= 2),
            spec_gathered_from(accum.tracks@, all),
            accum.tracks@.len() < DISCOVERY_TARGET ==> spec_all_offers_represented(
                accum.tracks@,
                all,
                s as int,
            ),
        decreases rem@.len(),
    {
        let ghost accum_before = accum.tracks@.len() as int;
        let ghost accum_entry = accum.tracks@;
        let results = rem.remove(0);
        proof {
            assert(all.subrange(s as int, all.len() as int)[0] == all[s as int]);
            assert(results == all[s as int]);
            assert(rem@ =~= all.subrange(s as int + 1, all.len() as int));
        }
        let ghost results_view = results@;
        let ghost rlen = results@.len() as int;
        proof {
            assert(results_view == all[s as int]@);
        }
        accum.ingest_search_results(results);
        proof {
            assert(spec_accepted_from(accum.tracks@, accum_before, results_view));
            assert(accum.tracks@.subrange(0, accum_entry.len() as int) == accum_entry);
            assert(spec_gathered_from(accum.tracks@, all)) by {
                assert forall|k: int|
                    0 <= k < accum.tracks@.len() implies #[trigger] spec_offered(
                    all,
                    accum.tracks@[k],
                ) by {
                    if k < accum_entry.len() {
                        assert(accum.tracks@[k] == accum_entry[k]) by {
                            assert(accum.tracks@.subrange(0, accum_entry.len() as int)[k]
                                == accum.tracks@[k]);
                        }
                        assert(spec_offered(all, accum_entry[k]));
                    } else {
                        assert(spec_from_tail(results_view, accum.tracks@[k]));
                        let j = choose|j: int|
                            #![trigger results_view[j]]
                            1 <= j < results_view.len() && accum.tracks@[k] == results_view[j];
                        assert(accum.tracks@[k] == all[s as int]@[j]);
                    }
                }
            }
            if accum.tracks@.len() < DISCOVERY_TARGET {
                assert(spec_ids_represented(accum.tracks@, results_view, rlen));
                assert(spec_all_offers_represented(accum.tracks@, all, s as int + 1)) by {
                    assert(accum_entry.len() < DISCOVERY_TARGET);
                    assert forall|si: int, j: int|
                        0 <= si < s as int + 1 && 1 <= j < all[si]@.len() implies (exists|
                        k: int|
                        0 <= k < accum.tracks@.len() && (#[trigger] accum.tracks@[k].id@) == (
                        #[trigger] all[si]@[j].id@)) by {
                        if si < s as int {
                            let k0 = choose|k: int|
                                0 <= k < accum_entry.len() && accum_entry[k].id@ == all[
                                    si
                                ]@[j].id@;
                            assert(accum.tracks@[k0] == accum_entry[k0]) by {
                                assert(accum.tracks@.subrange(0, accum_entry.len() as int)[
                                    k0
                                ] == accum.tracks@[k0]);
                            }
                            assert(accum.tracks@[k0].id@ == all[si]@[j].id@);
                        } else {
                            let k0 = choose|k: int|
                                0 <= k < accum.tracks@.len() && accum.tracks@[k].id@
                                    == results_view[j].id@;
                            assert(accum.tracks@[k0].id@ == all[s as int]@[j].id@);
                        }
                    }
                }
            }
            if accum.tracks@.len() == 0 {
                assert(accum_before == 0);
                assert(rlen <= 1) by {
                    if rlen >= 2 {
                        assert(accum.tracks@.len() >= 1);
                    }
                }
                assert(all[s as int]@.len() <= 1);
            } else {
                if accum_before == 0 {
                    assert(rlen >= 2) by {
                        if rlen <= 1 {
                            assert(accum.tracks@.len() == accum_before);
                        }
                    }
                    assert(all[s as int]@.len() >= 2);
                }
            }
        }
        s = s + 1;
    }
    if accum.tracks.len() == 0 {
        proof {
            assert(forall|k: int| 0 <= k < all.len() ==> #[trigger] all[k]@.len() <= 1);
        }
        return Err(
            DiscoveryError::RecommendationGenerationFailed(
                String::from_str("Could not generate any recommendations using search API"),
            ),
        );
    }
    Ok(accum.tracks)
}

/// The URIs of a track sequence, in order.
pub fn track_uris(tracks: &Vec<TrackInfo>) -> (r: Vec<String>)
    ensures
        r@.len() == tracks@.len(),
        forall|i: int| 0 <= i < r@.len() ==> #[trigger] r@[i]@ == tracks@[i].uri@,
{
    let mut uris: Vec<String> = Vec::new();
    let mut i: usize = 0;
    while i < tracks.len()
        invariant
            i <= tracks@.len(),
            uris@.len() == i,
            forall|k: int| 0 <= k < i ==> #[trigger] uris@[k]@ == tracks@[k].uri@,
        decreases tracks@.len() - i,
    {
        uris.push(tracks[i].uri.clone());
        i = i + 1;
    }
    uris
}

/// The free-text similarity query for one seed track: its primary artist
/// and its name, space-separated; an artistless track contributes only
/// its name after the space.
pub fn seed_query(track: &TrackInfo) -> (r: String)
    ensures
        track.artists@.len() > 0 ==> r@ == track.artists@[0]@ + " "@ + track.name@,
        track.artists@.len() == 0 ==> r@ == " "@ + track.name@,
{
    let mut q = String::new();
    if track.artists.len() > 0 {
        q.append(track.artists[0].as_str());
    }
    q.append(" ");
    q.append(track.name.as_str());
    q
}

/// One whole discovery cycle over its inputs: the source listing read
/// from the collaborative playlist, and the per-seed search results the
/// surrounding process fetched. An empty source fails fast before any
/// seed is drawn; otherwise seeds are selected, the candidates gathered,
/// deduplicated and capped, the playlist with its statistics built, and
/// the publishing write planned, carrying exactly the generated tracks'
/// URIs to the target playlist. The seed draw is random; everything
/// stated holds for every draw and for any search results.
pub fn run_discovery_cycle(
    source_tracks: Vec<TrackInfo>,
    per_seed_results: Vec<Vec<TrackInfo>>,
    target_playlist_id: &str,
) -> (r: Result<(DiscoveryPlaylist, ApiRequest), DiscoveryError>)
    ensures
        source_tracks@.len() == 0 ==> r == Err::<(DiscoveryPlaylist, ApiRequest),
            DiscoveryError,
        >(DiscoveryError::InsufficientSeedTracks { count: 0, required: 1 }),
        r is Ok ==> {
            &&& 1 <= r->Ok_0.0.tracks@.len() <= DISCOVERY_TARGET
            &&& (forall|i: int, j: int|
                0 <= i < j < r->Ok_0.0.tracks@.len() ==> #[trigger] r->Ok_0.0.tracks@[i].id@
                    != #[trigger] r->Ok_0.0.tracks@[j].id@)
            &&& 1 <= r->Ok_0.0.seed_tracks@.len() <= MAX_SEED_TRACKS
            &&& r->Ok_0.0.stats.total_tracks == r->Ok_0.0.tracks@.len()
            &&& r->Ok_0.1.method is Put
            &&& r->Ok_0.1.url@ == spec_playlist_tracks_url(target_playlist_id@)
            &&& (r->Ok_0.1.uris_body matches Some(uris) && uris@.len()
                == r->Ok_0.0.tracks@.len() && (forall|i: int|
                0 <= i < uris@.len() ==> #[trigger] uris@[i]@ == r->Ok_0.0.tracks@[i].uri@))
        },
        r is Ok ==> spec_gathered_from(r->Ok_0.0.tracks@, per_seed_results@),
        r is Ok && r->Ok_0.0.tracks@.len() < DISCOVERY_TARGET ==> spec_all_offers_represented(
            r->Ok_0.0.tracks@,
            per_seed_results@,
            per_seed_results@.len() as int,
        ),
        r is Err ==> (r->Err_0 is InsufficientSeedTracks || r->Err_0
            is RecommendationGenerationFailed),
{
    if source_tracks.len() == 0 {
        return Err(DiscoveryError::InsufficientSeedTracks { count: 0, required: 1 });
    }
    let seed_tracks = select_seed_tracks(source_tracks)?;
    let discovery_tracks = gather_candidates(per_seed_results)?;
    let playlist = DiscoveryPlaylist::new(discovery_tracks, seed_tracks);
    let uris = track_uris(&playlist.tracks);
    match plan_replace_all(target_playlist_id, uris) {
        Ok(request) => Ok((playlist, request)),
        Err(_) => {
            // The gathered candidates are never empty, so neither are
            // their URIs, and the plan cannot refuse them.
            Err(DiscoveryError::InsufficientSeedTracks { count: 0, required: 1 })
        },
    }
}

/// What discovery generation can currently do, computed from the size of
/// the collaborative playlist.
#[derive(Debug, Clone, PartialEq)]
pub struct GenerationStats {
    /// Tracks in the collaborative playlist.
    pub total_collaborative_tracks: usize,
    /// Size of the recent pool seeds are drawn from.
    pub recent_tracks_pool_size: usize,
    /// How many seeds a run may select.
    pub max_seed_tracks: usize,
    /// Whether a discovery run is possible at all.
    pub can_generate: bool,
}

impl GenerationStats {
    /// The generation capabilities for a collaborative playlist of the
    /// given size.
    pub fn from_track_count(total: usize) -> (g: GenerationStats)
        ensures
            g.total_collaborative_tracks == total,
            g.recent_tracks_pool_size == (if total < RECENT_TRACKS_POOL_SIZE {
                total as int
            } else {
                RECENT_TRACKS_POOL_SIZE as int
            }),
            g.max_seed_tracks == (if total < MAX_SEED_TRACKS {
                total as int
            } else {
                MAX_SEED_TRACKS as int
            }),
            g.can_generate == (total > 0),
    {
        let pool = if total < RECENT_TRACKS_POOL_SIZE {
            total
        } else {
            RECENT_TRACKS_POOL_SIZE
        };
        let seeds = if total < MAX_SEED_TRACKS {
            total
        } else {
            MAX_SEED_TRACKS
        };
        GenerationStats {
            total_collaborative_tracks: total,
            recent_tracks_pool_size: pool,
            max_seed_tracks: seeds,
            can_generate: total > 0,
        }
    }

    /// Render the statistics for display.
    pub fn format_stats(&self) -> (r: String)
        requires
            self.total_collaborative_tracks <= u64::MAX,
            self.recent_tracks_pool_size <= u64::MAX,
            self.max_seed_tracks <= u64::MAX,
        ensures
            r@ == "🎯 **Discovery Generation Stats**\n• Total collaborative tracks: "@ + spec_dec(
                self.total_collaborative_tracks as nat,
            ) + "\n• Recent tracks pool: "@ + spec_dec(self.recent_tracks_pool_size as nat)
                + "\n• Max seed tracks: "@ + spec_dec(self.max_seed_tracks as nat)
                + "\n• Can generate: "@ + (if self.can_generate {
                "✅ Yes"@
            } else {
                "❌ No"@
            }),
    {
        let mut out = String::from_str("🎯 **Discovery Generation Stats**\n• Total collaborative tracks: ");
        let total = u64_to_string(self.total_collaborative_tracks as u64);
        out.append(total.as_str());
        out.append("\n• Recent tracks pool: ");
        let pool = u64_to_string(self.recent_tracks_pool_size as u64);
        out.append(pool.as_str());
        out.append("\n• Max seed tracks: ");
        let seeds = u64_to_string(self.max_seed_tracks as u64);
        out.append(seeds.as_str());
        out.append("\n• Can generate: ");
        if self.can_generate {
            out.append("✅ Yes");
        } else {
            out.append("❌ No");
        }
        out
    }
}

} // verus!
