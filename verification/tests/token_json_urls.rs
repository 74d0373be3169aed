use sonic::config::{ConfigManager, DefaultConfigManager};
use sonic::endpoints::{encode_spaces, recommendations_request, search_url, track_url, tracks_page_url, uris_page_url};
use sonic::errors::{ConfigError, MessageProcessingError, SpotifyError};
use sonic::json::{parse_search_results, parse_token_grant, parse_tracks_page, parse_uris_page};
use sonic::models::{BotConfig, SpotifyUrlType};
use sonic::text::{contains_sub, parse_u64_dec, u64_to_string};
use sonic::token::{basic_auth_header, ensure_valid_model, RefreshGate, TokenManager};
use sonic::urls::{extract_spotify_urls, extract_track_id, is_spotify_url, parse_spotify_uri, parse_spotify_url, track_id_to_uri, validate_track_url};

#[test]
fn test_token_manager_refresh_flow() {
    let mut manager = TokenManager::new("refresh-me".to_string());
    assert!(manager.needs_refresh(0));
    assert!(manager.bearer_header().is_err());

    assert_eq!(manager.begin_refresh(0), RefreshGate::Begin);
    assert_eq!(manager.begin_refresh(0), RefreshGate::AwaitInFlight);
    manager.complete_refresh("token-1".to_string(), 3600, 1_000_000);
    assert!(!manager.needs_refresh(1_000_000));
    assert_eq!(manager.begin_refresh(1_000_000), RefreshGate::Fresh);
    assert_eq!(manager.bearer_header().unwrap(), "Bearer token-1");

    assert!(manager.needs_refresh(1_000_000 + 3_600_000 - 200_000));
    assert_eq!(manager.begin_refresh(1_000_000 + 3_600_000), RefreshGate::Begin);
    manager.fail_refresh();
    assert_eq!(manager.begin_refresh(1_000_000 + 3_600_000), RefreshGate::Begin);
}

#[test]
fn test_single_refresh_under_many_callers() {
    let mut manager = TokenManager::new("refresh-me".to_string());
    let refreshes = ensure_valid_model(&mut manager, 8, "token-1".to_string(), 3600, 1_000_000);
    assert_eq!(refreshes, 1);
    assert!(!manager.needs_refresh(1_000_000));
    let again = ensure_valid_model(&mut manager, 8, "token-2".to_string(), 3600, 1_000_000);
    assert_eq!(again, 0);
    assert_eq!(manager.bearer_header().unwrap(), "Bearer token-1");
}

#[test]
fn test_basic_auth_header_encodes() {
    assert_eq!(basic_auth_header("id", "secret"), "Basic aWQ6c2VjcmV0");
}

#[test]
fn test_refresh_request_plan() {
    let manager = TokenManager::new("refresh-me".to_string());
    let request = manager.refresh_request("id", "secret").unwrap();
    assert_eq!(request.url, "https://accounts.spotify.com/api/token");
    assert_eq!(request.auth_header, "Basic aWQ6c2VjcmV0");
    assert_eq!(request.form_refresh_token, "refresh-me");
    assert_eq!(request.form_grant_type, "refresh_token");
}

#[test]
fn test_parse_token_grant() {
    let grant = parse_token_grant("{\"access_token\":\"tok\",\"expires_in\":120}").unwrap();
    assert_eq!(grant.access_token, "tok");
    assert_eq!(grant.expires_in_s, 120);
    let default = parse_token_grant("{\"access_token\":\"tok\"}").unwrap();
    assert_eq!(default.expires_in_s, 3600);
    assert!(matches!(
        parse_token_grant("{}"),
        Err(SpotifyError::TokenRefreshFailed(_))
    ));
    assert!(matches!(
        parse_token_grant("not json"),
        Err(SpotifyError::JsonParsingError(_))
    ));
}

#[test]
fn test_parse_tracks_page_skips_malformed() {
    let body = "{\"items\":[\
        {\"track\":{\"id\":\"a\",\"uri\":\"spotify:track:a\",\"name\":\"A\",\
        \"artists\":[{\"name\":\"X\"},{\"name\":\"Y\"}],\"album\":{\"name\":\"Al\"},\
        \"duration_ms\":1000,\"popularity\":50,\"explicit\":true}},\
        {\"track\":null},\
        {\"track\":{\"uri\":\"spotify:track:b\"}}]}";
    let page = parse_tracks_page(body).unwrap();
    assert_eq!(page.entries, 3);
    assert_eq!(page.tracks.len(), 1);
    let t = &page.tracks[0];
    assert_eq!(t.id, "a");
    assert_eq!(t.artists, vec!["X".to_string(), "Y".to_string()]);
    assert_eq!(t.duration_ms, 1000);
    assert_eq!(t.popularity, Some(50));
    assert!(t.explicit);
    assert!(matches!(
        parse_tracks_page("{\"wrong\":1}"),
        Err(SpotifyError::JsonParsingError(_))
    ));
}

#[test]
fn test_parse_uris_page() {
    let body = "{\"items\":[{\"track\":{\"uri\":\"spotify:track:a\"}},{\"track\":{}},{\"track\":{\"uri\":\"spotify:track:b\"}}]}";
    let page = parse_uris_page(body).unwrap();
    assert_eq!(page.entries, 3);
    assert_eq!(page.uris, vec!["spotify:track:a".to_string(), "spotify:track:b".to_string()]);
}

#[test]
fn test_parse_search_results() {
    let body = "{\"tracks\":{\"items\":[\
        {\"id\":\"a\",\"uri\":\"spotify:track:a\",\"name\":\"A\",\"artists\":[{\"name\":\"X\"}],\
        \"album\":{\"name\":\"Al\"},\"duration_ms\":1000}]}}";
    let results = parse_search_results(body).unwrap();
    assert_eq!(results.len(), 1);
    assert_eq!(results[0].name, "A");
    assert_eq!(results[0].popularity, None);
}

#[test]
fn test_endpoint_urls() {
    assert_eq!(track_url("abc"), "https://api.spotify.com/v1/tracks/abc");
    let page = tracks_page_url("p1", 200);
    assert!(page.starts_with("https://api.spotify.com/v1/playlists/p1/tracks?offset=200&limit=100"));
    let uri_page = uris_page_url("p1", 0);
    assert!(uri_page.ends_with("offset=0&limit=100&fields=items(track(uri))"));
    assert_eq!(encode_spaces("a b  c"), "a%20b%20%20c");
    assert_eq!(
        search_url("Artist Song", 10),
        "https://api.spotify.com/v1/search?q=Artist%20Song&type=track&limit=10"
    );
    assert_eq!(
        search_url("q", 99),
        "https://api.spotify.com/v1/search?q=q&type=track&limit=50"
    );
}

#[test]
fn test_extract_spotify_urls() {
    let test_cases: Vec<(&str, Vec<&str>)> = vec![
        (
            "Check out this song: https://open.spotify.com/track/4iV5W9uYEdYUVa79Axb7Rh",
            vec!["https://open.spotify.com/track/4iV5W9uYEdYUVa79Axb7Rh"],
        ),
        (
            "Multiple songs: https://open.spotify.com/track/1 and https://open.spotify.com/track/2",
            vec!["https://open.spotify.com/track/1", "https://open.spotify.com/track/2"],
        ),
        (
            "Spotify URI: spotify:track:4iV5W9uYEdYUVa79Axb7Rh",
            vec!["spotify:track:4iV5W9uYEdYUVa79Axb7Rh"],
        ),
        ("No Spotify URLs here", vec![]),
    ];
    for (input, expected) in test_cases {
        let result = extract_spotify_urls(input);
        assert_eq!(result, expected, "Failed for input: {}", input);
    }
}

#[test]
fn test_parse_spotify_url() {
    let track_url = "https://open.spotify.com/track/4iV5W9uYEdYUVa79Axb7Rh";
    match parse_spotify_url(track_url).unwrap() {
        SpotifyUrlType::Track(id) => assert_eq!(id, "4iV5W9uYEdYUVa79Axb7Rh"),
        _ => panic!("Expected track type"),
    }
    let track_uri = "spotify:track:4iV5W9uYEdYUVa79Axb7Rh";
    match parse_spotify_url(track_uri).unwrap() {
        SpotifyUrlType::Track(id) => assert_eq!(id, "4iV5W9uYEdYUVa79Axb7Rh"),
        _ => panic!("Expected track type"),
    }
    let invalid_url = "https://example.com/not-spotify";
    assert!(parse_spotify_url(invalid_url).is_err());
}

#[test]
fn test_extract_track_id() {
    let track_url = "https://open.spotify.com/track/4iV5W9uYEdYUVa79Axb7Rh";
    let track_id = extract_track_id(track_url).unwrap();
    assert_eq!(track_id, "4iV5W9uYEdYUVa79Axb7Rh");
    let album_url = "https://open.spotify.com/album/4iV5W9uYEdYUVa79Axb7Rh";
    assert!(extract_track_id(album_url).is_err());
}

#[test]
fn test_validate_track_url() {
    let track_url = "https://open.spotify.com/track/4iV5W9uYEdYUVa79Axb7Rh";
    let track_id = validate_track_url(track_url).unwrap();
    assert_eq!(track_id, "4iV5W9uYEdYUVa79Axb7Rh");
    let album_url = "https://open.spotify.com/album/4iV5W9uYEdYUVa79Axb7Rh";
    assert!(validate_track_url(album_url).is_err());
}

#[test]
fn test_parse_spotify_uri_forms() {
    match parse_spotify_uri("spotify:album:xyz").unwrap() {
        SpotifyUrlType::Album(id) => assert_eq!(id, "xyz"),
        other => panic!("Expected album type, got {:?}", other),
    }
    assert_eq!(parse_spotify_uri("spotify:show:xyz").unwrap(), SpotifyUrlType::Unsupported);
    assert!(matches!(
        parse_spotify_uri("nothing:here"),
        Err(MessageProcessingError::InvalidSpotifyUrl { .. })
    ));
    assert!(parse_spotify_uri("spotify:track:a:b").is_err());
}

#[test]
fn test_parse_spotify_url_path_forms() {
    match parse_spotify_url("https://open.spotify.com/intl-de/track/abc123").unwrap() {
        SpotifyUrlType::Track(id) => assert_eq!(id, "abc123"),
        other => panic!("Expected track type, got {:?}", other),
    }
    match parse_spotify_url("https://open.spotify.com/user/alice/playlist/xyz").unwrap() {
        SpotifyUrlType::Playlist(id) => assert_eq!(id, "xyz"),
        other => panic!("Expected playlist type, got {:?}", other),
    }
    match parse_spotify_url("https://open.spotify.com/episode/abc").unwrap() {
        SpotifyUrlType::Unsupported => {},
        other => panic!("Expected unsupported type, got {:?}", other),
    }
}

#[test]
fn test_recommendations_request_plan() {
    assert!(recommendations_request(&Vec::new()).is_err());
    let seeds: Vec<String> = (0..7).map(|i| format!("s{}", i)).collect();
    let request = recommendations_request(&seeds).unwrap();
    assert_eq!(
        request.url,
        "https://api.spotify.com/v1/recommendations?limit=20&seed_tracks=s0,s1,s2,s3,s4"
    );
    assert_eq!(request.uris_body, None);
}

#[test]
fn test_is_spotify_url_words() {
    assert!(is_spotify_url("https://open.spotify.com/track/1"));
    assert!(is_spotify_url("spotify:track:1"));
    assert!(!is_spotify_url("https://example.com"));
}

#[test]
fn test_track_id_to_uri() {
    assert_eq!(track_id_to_uri("abc123"), "spotify:track:abc123");
}

#[test]
fn test_text_helpers() {
    assert!(contains_sub("hello timeout world", "timeout"));
    assert!(!contains_sub("hello", "world"));
    assert_eq!(parse_u64_dec("1234"), Some(1234));
    assert_eq!(parse_u64_dec(""), None);
    assert_eq!(parse_u64_dec("12a"), None);
    assert_eq!(parse_u64_dec("18446744073709551615"), Some(u64::MAX));
    assert_eq!(parse_u64_dec("18446744073709551616"), None);
    assert_eq!(u64_to_string(0), "0");
    assert_eq!(u64_to_string(9876543210), "9876543210");
}

#[test]
fn test_config_manager() {
    let mut config = BotConfig::new();
    config.discord_token = "t".to_string();
    config.spotify_client_id = "i".to_string();
    config.spotify_client_secret = "s".to_string();
    config.spotify_refresh_token = "r".to_string();
    config.target_channel_id = 7;
    config.collaborative_playlist_id = "c".to_string();
    config.discovery_playlist_id = "d".to_string();
    let mut manager = DefaultConfigManager::new(config);
    assert!(manager.validate_config().is_ok());
    assert_eq!(manager.config().target_channel_id, 7);
    assert!(manager.update_target_channel(9).is_ok());
    assert_eq!(manager.config().target_channel_id, 9);
    match manager.update_target_channel(0) {
        Err(ConfigError::InvalidValue { field, value }) => {
            assert_eq!(field, "target_channel_id");
            assert_eq!(value, "0");
        },
        other => panic!("expected rejection, got {:?}", other),
    }
    manager.config_mut().target_channel_id = 11;
    assert_eq!(manager.config().target_channel_id, 11);
}
