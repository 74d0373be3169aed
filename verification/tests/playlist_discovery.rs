use sonic::discovery::{gather_candidates, run_discovery_cycle, select_seed_tracks, track_uris, CandidateAccum, GenerationStats, seed_query};
use sonic::endpoints::{ApiRequest, HttpMethod};
use sonic::errors::{DiscoveryError, PlaylistError};
use sonic::models::TrackInfo;
use sonic::playlist::{contains_model, extract_track_id_from_uri, list_tracks_model, page_contains_uri, plan_append_write, plan_replace_all, recent_suffix, validate_track_uri, AppendOutcome, PlaylistModel};

fn track(id: &str) -> TrackInfo {
    TrackInfo {
        id: id.to_string(),
        uri: format!("spotify:track:{}", id),
        name: format!("Song {}", id),
        artists: vec![format!("Artist {}", id)],
        album: "Album".to_string(),
        duration_ms: 200000,
        popularity: Some(50),
        preview_url: None,
        explicit: false,
    }
}

fn tracks(n: usize) -> Vec<TrackInfo> {
    (0..n).map(|i| track(&format!("t{}", i))).collect()
}

#[test]
fn test_list_tracks_pagination_counts() {
    let (out, requests) = list_tracks_model(tracks(0));
    assert_eq!(out.len(), 0);
    assert_eq!(requests, 1);

    let (out, requests) = list_tracks_model(tracks(50));
    assert_eq!(out.len(), 50);
    assert_eq!(requests, 1);

    let (out, requests) = list_tracks_model(tracks(250));
    assert_eq!(out.len(), 250);
    assert_eq!(requests, 3);
    assert_eq!(out[0].id, "t0");
    assert_eq!(out[249].id, "t249");

    let (out, requests) = list_tracks_model(tracks(200));
    assert_eq!(out.len(), 200);
    assert_eq!(requests, 3);
}

#[test]
fn test_contains_short_circuits_pages() {
    let listing: Vec<String> = (0..250).map(|i| format!("spotify:track:u{}", i)).collect();
    assert_eq!(contains_model(listing.clone(), "spotify:track:u0"), (true, 1));
    assert_eq!(contains_model(listing.clone(), "spotify:track:u150"), (true, 2));
    assert_eq!(contains_model(listing.clone(), "spotify:track:u249"), (true, 3));
    assert_eq!(contains_model(listing, "spotify:track:absent"), (false, 3));
    assert_eq!(contains_model(Vec::new(), "spotify:track:u0"), (false, 1));
    let even: Vec<String> = (0..200).map(|i| format!("spotify:track:u{}", i)).collect();
    assert_eq!(contains_model(even, "spotify:track:absent"), (false, 3));
}

#[test]
fn test_page_contains_uri_scan() {
    let uris: Vec<String> = vec!["spotify:track:a".to_string(), "spotify:track:b".to_string()];
    assert!(page_contains_uri(&uris, "spotify:track:b"));
    assert!(!page_contains_uri(&uris, "spotify:track:c"));
}

#[test]
fn test_append_is_idempotent() {
    let mut playlist = PlaylistModel::new();
    let (first, writes_first) = playlist.append("spotify:track:abc");
    assert_eq!(first, AppendOutcome::Added);
    assert_eq!(writes_first, 1);
    let (second, writes_second) = playlist.append("spotify:track:abc");
    assert_eq!(second, AppendOutcome::AlreadyExists);
    assert_eq!(writes_second, 0);
    assert_eq!(playlist.uris.len(), 1);
    assert_eq!(playlist.uris[0], "spotify:track:abc");
}

#[test]
fn test_replace_all_rejects_empty_without_request() {
    let r = plan_replace_all("playlist1", Vec::new());
    match r {
        Err(PlaylistError::ReplaceTracksFailed(m)) => {
            assert_eq!(m, "Cannot replace playlist with empty track list");
        },
        other => panic!("expected a rejection, got {:?}", other),
    }
}

#[test]
fn test_replace_all_plans_single_put() {
    let uris = vec!["spotify:track:a".to_string(), "spotify:track:b".to_string()];
    let r = plan_replace_all("playlist1", uris.clone()).unwrap();
    assert_eq!(r.method, HttpMethod::Put);
    assert!(r.url.ends_with("/playlists/playlist1/tracks"));
    assert_eq!(r.uris_body, Some(uris));
}

#[test]
fn test_append_write_plan() {
    let r: ApiRequest = plan_append_write("playlist1", "spotify:track:a");
    assert_eq!(r.method, HttpMethod::Post);
    assert!(r.url.ends_with("/playlists/playlist1/tracks"));
    assert_eq!(r.uris_body, Some(vec!["spotify:track:a".to_string()]));
}

#[test]
fn test_validate_track_uri() {
    assert!(validate_track_uri("spotify:track:4iV5W9uYEdYUVa79Axb7Rh").is_ok());
    assert!(validate_track_uri("invalid:format").is_err());
    assert!(validate_track_uri("spotify:track:").is_err());
    assert!(validate_track_uri("spotify:track:short").is_err());
}

#[test]
fn test_extract_track_id_from_uri() {
    let result = extract_track_id_from_uri("spotify:track:4iV5W9uYEdYUVa79Axb7Rh");
    assert!(result.is_ok());
    assert_eq!(result.unwrap(), "4iV5W9uYEdYUVa79Axb7Rh");
    let result = extract_track_id_from_uri("invalid:uri:format");
    assert!(result.is_err());
}

#[test]
fn test_recent_suffix() {
    let all = tracks(10);
    let recent = recent_suffix(all.clone(), 3);
    assert_eq!(recent.len(), 3);
    assert_eq!(recent[0].id, "t7");
    assert_eq!(recent[2].id, "t9");
    let few = recent_suffix(all, 100);
    assert_eq!(few.len(), 10);
}

#[test]
fn test_seed_selection_bounds() {
    let seeds = select_seed_tracks(tracks(60)).unwrap();
    assert_eq!(seeds.len(), 5);
    for i in 0..seeds.len() {
        for j in (i + 1)..seeds.len() {
            assert_ne!(seeds[i], seeds[j]);
        }
        let n: usize = seeds[i].trim_start_matches('t').parse().unwrap();
        assert!(n >= 10, "seed {} drawn outside the recent window", seeds[i]);
    }
}

#[test]
fn test_seed_selection_small_source() {
    let seeds = select_seed_tracks(tracks(3)).unwrap();
    assert_eq!(seeds.len(), 3);
    let err = select_seed_tracks(Vec::new());
    assert_eq!(err, Err(DiscoveryError::InsufficientSeedTracks { count: 0, required: 1 }));
}

#[test]
fn test_candidate_accum_dedup_and_cap() {
    let mut accum = CandidateAccum::new();
    let mut results: Vec<TrackInfo> = (0..6).map(|i| track(&format!("r{}", i))).collect();
    results.insert(0, track("echo"));
    accum.ingest_search_results(results);
    assert_eq!(accum.tracks.len(), 6);
    assert!(accum.tracks.iter().all(|t| t.id != "echo"));

    let dupes: Vec<TrackInfo> = vec![track("echo2"), track("r0"), track("r1"), track("new")];
    accum.ingest_search_results(dupes);
    assert_eq!(accum.tracks.len(), 7);
    assert_eq!(accum.tracks[6].id, "new");
}

#[test]
fn test_discovery_pipeline_three_seeds() {
    let per_seed: Vec<Vec<TrackInfo>> = (0..3)
        .map(|s| (0..10).map(|i| track(&format!("s{}r{}", s, i))).collect())
        .collect();
    let candidates = gather_candidates(per_seed).unwrap();
    assert_eq!(candidates.len(), 20);
    for i in 0..candidates.len() {
        for j in (i + 1)..candidates.len() {
            assert_ne!(candidates[i].id, candidates[j].id);
        }
        assert!(!candidates[i].id.ends_with("r0"), "seed echo {} accepted", candidates[i].id);
    }
    let uris = track_uris(&candidates);
    assert_eq!(uris.len(), 20);
    assert_eq!(uris[0], "spotify:track:s0r1");
    assert_eq!(uris[8], "spotify:track:s0r9");
    assert_eq!(uris[9], "spotify:track:s1r1");
    assert_eq!(uris[18], "spotify:track:s2r1");
    assert_eq!(uris[19], "spotify:track:s2r2");
    let plan = plan_replace_all("discovery123", uris.clone()).unwrap();
    assert_eq!(plan.uris_body, Some(uris));
}

#[test]
fn test_discovery_fails_with_no_candidates() {
    let per_seed: Vec<Vec<TrackInfo>> = vec![vec![track("only")], Vec::new()];
    let r = gather_candidates(per_seed);
    match r {
        Err(DiscoveryError::RecommendationGenerationFailed(m)) => {
            assert_eq!(m, "Could not generate any recommendations using search API");
        },
        other => panic!("expected failure, got {:?}", other),
    }
}

#[test]
fn test_run_discovery_cycle_end_to_end() {
    let source = tracks(30);
    let per_seed: Vec<Vec<TrackInfo>> = (0..3)
        .map(|s| (0..10).map(|i| track(&format!("c{}x{}", s, i))).collect())
        .collect();
    let (playlist, request) = run_discovery_cycle(source, per_seed, "discovery123").unwrap();
    assert_eq!(playlist.tracks.len(), 20);
    assert!(playlist.seed_tracks.len() <= 5);
    assert!(!playlist.seed_tracks.is_empty());
    assert_eq!(playlist.stats.total_tracks, 20);
    assert_eq!(request.method, HttpMethod::Put);
    assert!(request.url.ends_with("/playlists/discovery123/tracks"));
    let uris = request.uris_body.unwrap();
    assert_eq!(uris.len(), 20);
    assert_eq!(uris[0], playlist.tracks[0].uri);
}

#[test]
fn test_run_discovery_cycle_empty_source() {
    let r = run_discovery_cycle(Vec::new(), Vec::new(), "discovery123");
    assert_eq!(r, Err(DiscoveryError::InsufficientSeedTracks { count: 0, required: 1 }));
}

#[test]
fn test_seed_query_shape() {
    let t = track("q1");
    assert_eq!(seed_query(&t), "Artist q1 Song q1");
    let mut no_artist = track("q2");
    no_artist.artists = Vec::new();
    assert_eq!(seed_query(&no_artist), " Song q2");
}

#[test]
fn test_generation_stats() {
    let g = GenerationStats::from_track_count(120);
    assert_eq!(g.total_collaborative_tracks, 120);
    assert_eq!(g.recent_tracks_pool_size, 50);
    assert_eq!(g.max_seed_tracks, 5);
    assert!(g.can_generate);
    let small = GenerationStats::from_track_count(2);
    assert_eq!(small.recent_tracks_pool_size, 2);
    assert_eq!(small.max_seed_tracks, 2);
    let empty = GenerationStats::from_track_count(0);
    assert!(!empty.can_generate);
    let text = g.format_stats();
    assert!(text.contains("Total collaborative tracks: 120"));
    assert!(text.contains("Can generate: ✅ Yes"));
    assert!(empty.format_stats().contains("Can generate: ❌ No"));
}
