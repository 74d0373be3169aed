use sonic::models::{BotConfig, DiscoveryPlaylist, PlaylistStats, PlaylistsSummary, SpotifyUrlType, TrackInfo};

fn track(id: &str, name: &str, artists: &[&str], duration_ms: u32, popularity: Option<u8>, explicit: bool) -> TrackInfo {
    TrackInfo {
        id: id.to_string(),
        uri: format!("spotify:track:{}", id),
        name: name.to_string(),
        artists: artists.iter().map(|a| a.to_string()).collect(),
        album: "Album".to_string(),
        duration_ms,
        popularity,
        preview_url: None,
        explicit,
    }
}

#[test]
fn test_track_info_new_and_accessors() {
    let t = TrackInfo::new(
        "id1".to_string(),
        "spotify:track:id1".to_string(),
        "Song".to_string(),
        vec!["First".to_string(), "Second".to_string()],
        "Album".to_string(),
        185000,
    );
    assert_eq!(t.primary_artist(), Some(&"First".to_string()));
    assert_eq!(t.artists_string(), "First, Second");
    assert_eq!(t.duration_formatted(), "3:05");
    assert_eq!(t.popularity, None);
    assert!(!t.explicit);
}

#[test]
fn test_duration_formatted_zero_pad() {
    let t = track("a", "A", &["X"], 180000, None, false);
    assert_eq!(t.duration_formatted(), "3:00");
    let t2 = track("b", "B", &["X"], 61000, None, false);
    assert_eq!(t2.duration_formatted(), "1:01");
}

#[test]
fn test_from_tracks_statistics() {
    let tracks = vec![
        track("a", "A", &["X"], 180000, Some(75), false),
        track("b", "B", &["Y", "Z"], 200000, Some(80), true),
        track("c", "C", &["X"], 100000, None, false),
    ];
    let stats = PlaylistStats::from_tracks(&tracks);
    assert_eq!(stats.total_tracks, 3);
    assert_eq!(stats.total_duration_ms, 480000);
    assert_eq!(stats.explicit_tracks, 1);
    assert_eq!(stats.unique_artists, 3);
    assert_eq!(stats.average_popularity_tenths, Some(775));
    assert_eq!(stats.most_common_artist, Some("X".to_string()));
}

#[test]
fn test_from_tracks_empty() {
    let stats = PlaylistStats::from_tracks(&Vec::new());
    assert_eq!(stats.total_tracks, 0);
    assert_eq!(stats.unique_artists, 0);
    assert_eq!(stats.total_duration_ms, 0);
    assert_eq!(stats.average_popularity_tenths, None);
    assert_eq!(stats.most_common_artist, None);
    assert_eq!(stats.explicit_tracks, 0);
}

#[test]
fn test_playlists_summary_formatting() {
    let collaborative_stats = PlaylistStats {
        total_tracks: 50,
        unique_artists: 25,
        total_duration_ms: 180000,
        average_popularity_tenths: Some(750),
        most_common_artist: Some("Test Artist".to_string()),
        explicit_tracks: 5,
    };
    let discovery_stats = PlaylistStats {
        total_tracks: 20,
        unique_artists: 15,
        total_duration_ms: 120000,
        average_popularity_tenths: Some(800),
        most_common_artist: Some("Another Artist".to_string()),
        explicit_tracks: 2,
    };
    let summary = PlaylistsSummary { collaborative: collaborative_stats, discovery: discovery_stats };
    assert_eq!(summary.total_tracks(), 70);
    assert_eq!(summary.total_duration_ms(), 300000);
    assert_eq!(summary.total_duration_formatted(), "5m 0s");
    let formatted = summary.format_summary();
    assert!(formatted.contains("50 tracks"));
    assert!(formatted.contains("20 tracks"));
    assert!(formatted.contains("Test Artist"));
    assert!(formatted.contains("Another Artist"));
}

#[test]
fn test_duration_formatted_with_hours() {
    let stats = PlaylistStats {
        total_tracks: 1,
        unique_artists: 1,
        total_duration_ms: 3_725_000,
        average_popularity_tenths: None,
        most_common_artist: None,
        explicit_tracks: 0,
    };
    assert_eq!(stats.duration_formatted(), "1h 2m 5s");
}

#[test]
fn test_discovery_playlist_counts() {
    let tracks = vec![track("a", "A", &["X"], 1000, None, false)];
    let playlist = DiscoveryPlaylist::new(tracks, vec!["seed".to_string()]);
    assert_eq!(playlist.track_count(), 1);
    assert!(!playlist.is_complete());
    assert_eq!(playlist.stats.total_tracks, 1);
}

#[test]
fn test_bot_config_defaults_and_validate() {
    let mut config = BotConfig::new();
    assert_eq!(config.weekly_schedule_cron, "0 0 12 * * MON");
    assert_eq!(config.max_retry_attempts, 3);
    assert_eq!(config.retry_base_delay_ms, 1000);
    assert_eq!(config.retry_max_delay_ms, 30000);
    assert_eq!(config.validate(), Err("Discord token is required".to_string()));
    config.discord_token = "t".to_string();
    assert_eq!(config.validate(), Err("Spotify client ID is required".to_string()));
    config.spotify_client_id = "i".to_string();
    config.spotify_client_secret = "s".to_string();
    config.spotify_refresh_token = "r".to_string();
    assert_eq!(config.validate(), Err("Target channel ID is required".to_string()));
    config.target_channel_id = 42;
    config.collaborative_playlist_id = "c".to_string();
    config.discovery_playlist_id = "d".to_string();
    assert!(config.validate().is_ok());
    config.max_retry_attempts = 0;
    assert_eq!(config.validate(), Err("Max retry attempts must be greater than 0".to_string()));
}

#[test]
fn test_spotify_url_type() {
    let t = SpotifyUrlType::Track("abc".to_string());
    assert!(t.is_addable());
    assert_eq!(t.id(), Some(&"abc".to_string()));
    let a = SpotifyUrlType::Album("x".to_string());
    assert!(!a.is_addable());
    assert_eq!(a.id(), Some(&"x".to_string()));
    assert_eq!(SpotifyUrlType::Unsupported.id(), None);
    assert!(!SpotifyUrlType::Unsupported.is_addable());
}
