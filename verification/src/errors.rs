//! Error taxonomy: one enum per domain, plus a top-level sum and the
//! user-visible feedback categories that terminal failures map to.

use vstd::prelude::*;

verus! {

/// Errors from the chat-platform side of the service.
#[derive(Debug, Clone, PartialEq)]
pub enum DiscordError {
    ConnectionFailed(String),
    AuthenticationFailed(String),
    MessageSendFailed(String),
    ChannelNotFound { channel_id: u64 },
    PermissionDenied { channel_id: u64 },
    RateLimitExceeded { retry_after_ms: u64 },
    ApiError { status: u16, message: String },
}

/// Errors from the music-streaming API client.
#[derive(Debug, Clone, PartialEq)]
pub enum SpotifyError {
    AuthenticationFailed(String),
    TokenExpired,
    TokenRefreshFailed(String),
    ApiRequestFailed { status: u16, message: String },
    RateLimitExceeded { retry_after_ms: u64 },
    TrackNotFound { track_id: String },
    PlaylistNotFound { playlist_id: String },
    PlaylistAccessDenied { playlist_id: String },
    InvalidTrackUri { uri: String },
    NetworkError(String),
    JsonParsingError(String),
}

/// Errors while loading or updating configuration.
#[derive(Debug, Clone, PartialEq)]
pub enum ConfigError {
    MissingEnvironmentVariable { var_name: String },
    InvalidValue { field: String, value: String },
    ValidationFailed(String),
    LoadFailed(String),
    SaveFailed(String),
}

/// Errors from high-level playlist operations.
#[derive(Debug, Clone, PartialEq)]
pub enum PlaylistError {
    AddTrackFailed(String),
    RemoveTrackFailed(String),
    RetrieveTracksFailed(String),
    TrackAlreadyExists { track_uri: String },
    PlaylistFull,
    ReplaceTracksFailed(String),
}

/// Errors while extracting track links from message text.
#[derive(Debug, Clone, PartialEq)]
pub enum MessageProcessingError {
    InvalidSpotifyUrl { url: String },
    UnsupportedUrlType { url: String },
    TrackIdExtractionFailed { url: String },
    UrlParsingFailed(String),
}

/// Errors from the discovery playlist generation pipeline.
#[derive(Debug, Clone, PartialEq)]
pub enum DiscoveryError {
    RecommendationGenerationFailed(String),
    InsufficientSeedTracks { count: usize, required: usize },
    SeedSelectionFailed(String),
    PlaylistCreationFailed(String),
}

/// Errors from the background scheduler.
#[derive(Debug, Clone, PartialEq)]
pub enum SchedulerError {
    StartFailed(String),
    StopFailed(String),
    TaskExecutionFailed(String),
    InvalidCronExpression { expression: String },
}

/// Top-level error: one variant wrapping each domain error.
#[derive(Debug, Clone, PartialEq)]
pub enum BotError {
    Discord(DiscordError),
    Spotify(SpotifyError),
    Config(ConfigError),
    Playlist(PlaylistError),
    MessageProcessing(MessageProcessingError),
    Discovery(DiscoveryError),
    Scheduler(SchedulerError),
}

/// User-visible category of a terminal failure; the outbound collaborator
/// renders these into prose.
#[derive(Debug, Clone, Copy, PartialEq, Eq, Structural)]
pub enum FeedbackCategory {
    Duplicate,
    RateLimited,
    Permission,
    Network,
    NotFound,
    Authentication,
    InvalidInput,
    Generic,
}

/// The category an API error is reported under.
pub open spec fn spec_spotify_category(e: SpotifyError) -> FeedbackCategory {
    match e {
        SpotifyError::InvalidTrackUri { .. } => FeedbackCategory::Duplicate,
        SpotifyError::RateLimitExceeded { .. } => FeedbackCategory::RateLimited,
        SpotifyError::PlaylistAccessDenied { .. } => FeedbackCategory::Permission,
        SpotifyError::NetworkError(_) => FeedbackCategory::Network,
        SpotifyError::TrackNotFound { .. } => FeedbackCategory::NotFound,
        SpotifyError::PlaylistNotFound { .. } => FeedbackCategory::NotFound,
        SpotifyError::AuthenticationFailed(_) => FeedbackCategory::Authentication,
        SpotifyError::TokenExpired => FeedbackCategory::Authentication,
        SpotifyError::TokenRefreshFailed(_) => FeedbackCategory::Authentication,
        SpotifyError::ApiRequestFailed { .. } => FeedbackCategory::Generic,
        SpotifyError::JsonParsingError(_) => FeedbackCategory::Generic,
    }
}

impl SpotifyError {
    /// Classify this error into the category a user is shown.
    ///
    /// Duplicate-track rejections surface as `InvalidTrackUri` from the
    /// append path, which is why that variant reports as `Duplicate`.
    pub fn category(&self) -> (c: FeedbackCategory)
        ensures
            c == spec_spotify_category(*self),
    {
        match self {
            SpotifyError::InvalidTrackUri { .. } => FeedbackCategory::Duplicate,
            SpotifyError::RateLimitExceeded { .. } => FeedbackCategory::RateLimited,
            SpotifyError::PlaylistAccessDenied { .. } => FeedbackCategory::Permission,
            SpotifyError::NetworkError(_) => FeedbackCategory::Network,
            SpotifyError::TrackNotFound { .. } => FeedbackCategory::NotFound,
            SpotifyError::PlaylistNotFound { .. } => FeedbackCategory::NotFound,
            SpotifyError::AuthenticationFailed(_) => FeedbackCategory::Authentication,
            SpotifyError::TokenExpired => FeedbackCategory::Authentication,
            SpotifyError::TokenRefreshFailed(_) => FeedbackCategory::Authentication,
            SpotifyError::ApiRequestFailed { .. } => FeedbackCategory::Generic,
            SpotifyError::JsonParsingError(_) => FeedbackCategory::Generic,
        }
    }
}

impl MessageProcessingError {
    /// Every link-extraction failure is reported as invalid input.
    pub fn category(&self) -> (c: FeedbackCategory)
        ensures
            c == FeedbackCategory::InvalidInput,
    {
        FeedbackCategory::InvalidInput
    }
}

} // verus!
