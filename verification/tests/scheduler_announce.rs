use sonic::announce::{feedback_message, format_discovery_announcement, format_discovery_error_announcement, format_manual_discovery_success, format_tenths};
use sonic::errors::{FeedbackCategory, SchedulerError};
use sonic::models::{DiscoveryPlaylist, TrackInfo};
use sonic::sched::{validate_cron_expression, ScheduleHandle, SchedulerStats};

fn create_test_discovery_playlist() -> DiscoveryPlaylist {
    let tracks = vec![
        TrackInfo {
            id: "1".to_string(),
            uri: "spotify:track:1".to_string(),
            name: "Test Track 1".to_string(),
            artists: vec!["Artist 1".to_string()],
            album: "Album 1".to_string(),
            duration_ms: 180000,
            popularity: Some(75),
            preview_url: None,
            explicit: false,
        },
        TrackInfo {
            id: "2".to_string(),
            uri: "spotify:track:2".to_string(),
            name: "Test Track 2".to_string(),
            artists: vec!["Artist 2".to_string()],
            album: "Album 2".to_string(),
            duration_ms: 200000,
            popularity: Some(80),
            preview_url: None,
            explicit: true,
        },
    ];
    let seed_tracks = vec!["seed1".to_string(), "seed2".to_string()];
    DiscoveryPlaylist::new(tracks, seed_tracks)
}

#[test]
fn test_format_discovery_announcement() {
    let discovery_playlist = create_test_discovery_playlist();
    let announcement = format_discovery_announcement(&discovery_playlist, 1700000000, "discovery123");
    assert!(announcement.contains("New Discovery Playlist is Ready!"));
    assert!(announcement.contains("2 tracks"));
    assert!(announcement.contains("2 unique artists"));
    assert!(announcement.contains("1 explicit tracks"));
    assert!(announcement.contains("2 seed tracks"));
    assert!(announcement.contains("discovery123"));
    assert!(announcement.contains("https://open.spotify.com/playlist/"));
}

#[test]
fn test_format_discovery_announcement_average() {
    let discovery_playlist = create_test_discovery_playlist();
    let announcement = format_discovery_announcement(&discovery_playlist, 1700000000, "discovery123");
    assert!(announcement.contains("⭐ **Average popularity:** 77.5/100"));
    assert!(announcement.contains("<t:1700000000:F>"));
}

#[test]
fn test_format_tenths_rendering() {
    assert_eq!(format_tenths(775), "77.5");
    assert_eq!(format_tenths(800), "80.0");
    assert_eq!(format_tenths(5), "0.5");
}

#[test]
fn test_error_and_success_announcements() {
    let err = format_discovery_error_announcement("boom");
    assert!(err.contains("Discovery Playlist Generation Failed"));
    assert!(err.contains("boom"));
    let ok = format_manual_discovery_success(20, "discovery123");
    assert!(ok.contains("20 tracks!"));
    assert!(ok.contains("https://open.spotify.com/playlist/discovery123"));
}

#[test]
fn test_feedback_messages() {
    assert_eq!(
        feedback_message(FeedbackCategory::Duplicate),
        "🔄 This track is already in the playlist!"
    );
    assert_eq!(
        feedback_message(FeedbackCategory::Network),
        "🌐 Network error. Please check your connection and try again."
    );
    assert_eq!(
        feedback_message(FeedbackCategory::Generic),
        "❌ An error occurred. Please try again later."
    );
}

#[test]
fn test_validate_cron_expression_standalone() {
    assert!(validate_cron_expression("0 0 12 * * MON").is_ok());
    assert!(validate_cron_expression("0 30 9 * * FRI").is_ok());
    assert!(validate_cron_expression("0 0 0 1 * *").is_ok());
    assert!(validate_cron_expression("invalid").is_err());
    assert!(validate_cron_expression("").is_err());
    assert!(validate_cron_expression("0 0 25 * * *").is_err());
}

#[test]
fn test_scheduler_lifecycle() {
    let mut handle = ScheduleHandle::new("0 0 12 * * MON".to_string());
    assert!(!handle.is_running());
    assert!(handle.start().is_ok());
    assert!(handle.is_running());
    match handle.start() {
        Err(SchedulerError::StartFailed(m)) => assert_eq!(m, "scheduler already started"),
        other => panic!("expected a start failure, got {:?}", other),
    }
    assert!(handle.stop().is_ok());
    assert!(!handle.is_running());
}

#[test]
fn test_scheduler_rejects_bad_expression() {
    let mut handle = ScheduleHandle::new("not a schedule".to_string());
    match handle.start() {
        Err(SchedulerError::InvalidCronExpression { expression }) => {
            assert_eq!(expression, "not a schedule");
        },
        other => panic!("expected an invalid expression, got {:?}", other),
    }
    assert!(!handle.is_running());
}

#[test]
fn test_scheduler_stats_format() {
    let stats = SchedulerStats {
        is_running: true,
        cron_expression: "0 0 12 * * MON".to_string(),
        next_execution_info: "Next execution: Monday at 12:00 PM".to_string(),
    };
    let formatted = stats.format_stats();
    assert!(formatted.contains("🟢 Running"));
    assert!(formatted.contains("0 0 12 * * MON"));
    assert!(formatted.contains("Next execution"));
}

#[test]
fn test_scheduler_stats_stopped() {
    let stats = SchedulerStats {
        is_running: false,
        cron_expression: "0 0 12 * * MON".to_string(),
        next_execution_info: "Scheduler is stopped".to_string(),
    };
    let formatted = stats.format_stats();
    assert!(formatted.contains("🔴 Stopped"));
    assert!(formatted.contains("0 0 12 * * MON"));
    assert!(formatted.contains("Scheduler is stopped"));
}

#[test]
fn test_scheduler_stats_snapshot() {
    let mut handle = ScheduleHandle::new("0 0 12 * * MON".to_string());
    handle.start().unwrap();
    let stats = handle.get_scheduler_stats();
    assert!(stats.is_running);
    assert_eq!(stats.cron_expression, "0 0 12 * * MON");
    assert_eq!(
        stats.next_execution_info,
        "Next discovery playlist generation scheduled with cron expression: 0 0 12 * * MON"
    );
}
