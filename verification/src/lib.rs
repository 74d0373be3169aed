//! Verified core of a playlist-automation service for a music-streaming API:
//! token lifecycle management, resilient request retry with backoff,
//! paginated playlist reading, idempotent playlist mutation, discovery
//! playlist generation, and the scheduler state machine that drives it.

pub mod announce;
pub mod client;
pub mod config;
pub mod discovery;
pub mod endpoints;
pub mod errors;
pub mod json;
pub mod models;
pub mod playlist;
pub mod retry;
pub mod sched;
pub mod text;
pub mod token;
pub mod urls;
