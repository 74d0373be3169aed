//! Announcement text: what the outbound collaborator is handed to render
//! when a discovery run completes or fails, and the feedback line each
//! error category maps to.

use vstd::prelude::*;
use vstd::string::*;
use crate::errors::FeedbackCategory;
use crate::models::DiscoveryPlaylist;
use crate::text::{spec_dec, u64_to_string};

verus! {

/// An average in tenths rendered with one decimal place.
pub open spec fn spec_tenths(t: int) -> Seq<char> {
    spec_dec((t / 10) as nat) + "."@ + spec_dec((t % 10) as nat)
}

/// Render a tenths value with one decimal place.
pub fn format_tenths(t: u64) -> (r: String)
    ensures
        r@ == spec_tenths(t as int),
{
    let mut out = u64_to_string(t / 10);
    out.append(".");
    let frac = u64_to_string(t % 10);
    out.append(frac.as_str());
    out
}

/// The announcement for a freshly generated discovery playlist: the
/// generation timestamp, the playlist's statistics, the most featured
/// artist and average popularity when known, and the listening link.
#[verifier::rlimit(100)]
pub fn format_discovery_announcement(
    playlist: &DiscoveryPlaylist,
    generated_at_epoch_s: u64,
    discovery_playlist_id: &str,
) -> (r: String)
    ensures
        r@ == "🎵 **New Discovery Playlist is Ready!** 🎵\n\n🔍 **Generated:** <t:"@
            + spec_dec(generated_at_epoch_s as nat) + ":F>\n📊 **Playlist Stats:**\n• "@
            + spec_dec(playlist.stats.total_tracks as nat) + " tracks from "@ + spec_dec(
            playlist.stats.unique_artists as nat,
        ) + " unique artists\n• Total duration: "@ + crate::models::spec_duration_hms(
            playlist.stats.total_duration_ms as int,
        ) + "\n• "@ + spec_dec(playlist.stats.explicit_tracks as nat)
            + " explicit tracks\n• Generated using "@ + spec_dec(playlist.seed_tracks@.len())
            + " seed tracks\n\n"@ + (match playlist.stats.most_common_artist {
            Some(a) => "🎤 **Most featured artist:** "@ + a@ + "\n"@,
            None => Seq::<char>::empty(),
        }) + (match playlist.stats.average_popularity_tenths {
            Some(t) => "⭐ **Average popularity:** "@ + spec_tenths(t as int) + "/100\n"@,
            None => Seq::<char>::empty(),
        }) + "\n🎧 **Listen now:** https://open.spotify.com/playlist/"@
            + discovery_playlist_id@
            + "\n\n💡 *This playlist was automatically generated based on recent additions to our collaborative playlist!*"@,
{
    let mut out = String::from_str("🎵 **New Discovery Playlist is Ready!** 🎵\n\n🔍 **Generated:** <t:");
    let ts = u64_to_string(generated_at_epoch_s);
    out.append(ts.as_str());
    out.append(":F>\n📊 **Playlist Stats:**\n• ");
    let total = u64_to_string(playlist.stats.total_tracks as u64);
    out.append(total.as_str());
    out.append(" tracks from ");
    let unique = u64_to_string(playlist.stats.unique_artists as u64);
    out.append(unique.as_str());
    out.append(" unique artists\n• Total duration: ");
    let dur = playlist.stats.duration_formatted();
    out.append(dur.as_str());
    out.append("\n• ");
    let ex = u64_to_string(playlist.stats.explicit_tracks as u64);
    out.append(ex.as_str());
    out.append(" explicit tracks\n• Generated using ");
    let seeds = u64_to_string(playlist.seed_tracks.len() as u64);
    out.append(seeds.as_str());
    out.append(" seed tracks\n\n");
    match &playlist.stats.most_common_artist {
        Some(artist) => {
            out.append("🎤 **Most featured artist:** ");
            out.append(artist.as_str());
            out.append("\n");
        },
        None => {},
    }
    match playlist.stats.average_popularity_tenths {
        Some(t) => {
            out.append("⭐ **Average popularity:** ");
            let avg = format_tenths(t);
            out.append(avg.as_str());
            out.append("/100\n");
        },
        None => {},
    }
    out.append("\n🎧 **Listen now:** https://open.spotify.com/playlist/");
    out.append(discovery_playlist_id);
    out.append(
        "\n\n💡 *This playlist was automatically generated based on recent additions to our collaborative playlist!*",
    );
    out
}

/// The announcement for a failed discovery run, quoting the error.
pub fn format_discovery_error_announcement(error: &str) -> (r: String)
    ensures
        r@ == "⚠️ **Discovery Playlist Generation Failed**\n\nAn error occurred while generating this week's discovery playlist:\n```\n"@
            + error@ + "\n```\n\nThe bot will try again during the next scheduled generation."@,
{
    let mut out = String::from_str(
        "⚠️ **Discovery Playlist Generation Failed**\n\nAn error occurred while generating this week's discovery playlist:\n```\n",
    );
    out.append(error);
    out.append("\n```\n\nThe bot will try again during the next scheduled generation.");
    out
}

/// The announcement after a manually triggered discovery run succeeded.
pub fn format_manual_discovery_success(track_count: u64, discovery_playlist_id: &str) -> (r:
    String)
    ensures
        r@ == "✅ **Manual Discovery Playlist Generated**\n\nSuccessfully generated a new discovery playlist with "@
            + spec_dec(track_count as nat)
            + " tracks!\n🎧 Check it out: https://open.spotify.com/playlist/"@
            + discovery_playlist_id@,
{
    let mut out = String::from_str(
        "✅ **Manual Discovery Playlist Generated**\n\nSuccessfully generated a new discovery playlist with ",
    );
    let count = u64_to_string(track_count);
    out.append(count.as_str());
    out.append(" tracks!\n🎧 Check it out: https://open.spotify.com/playlist/");
    out.append(discovery_playlist_id);
    out
}

/// The feedback line a user is shown for each error category.
pub fn feedback_message(category: FeedbackCategory) -> (r: String)
    ensures
        category is Duplicate ==> r@ == "🔄 This track is already in the playlist!"@,
        category is RateLimited ==> r@
            == "⏳ Spotify rate limit reached. Please wait a moment and try again."@,
        category is Permission ==> r@
            == "🔒 Permission denied. Please check playlist access settings."@,
        category is Network ==> r@
            == "🌐 Network error. Please check your connection and try again."@,
        category is NotFound ==> r@
            == "❌ Spotify track not found. The track may have been removed or the link is incorrect."@,
        category is Authentication ==> r@
            == "🔑 Authentication error. Please contact the bot administrator."@,
        category is InvalidInput ==> r@
            == "❌ Invalid Spotify track link. Please check the URL and try again."@,
        category is Generic ==> r@ == "❌ An error occurred. Please try again later."@,
{
    match category {
        FeedbackCategory::Duplicate => String::from_str(
            "🔄 This track is already in the playlist!",
        ),
        FeedbackCategory::RateLimited => String::from_str(
            "⏳ Spotify rate limit reached. Please wait a moment and try again.",
        ),
        FeedbackCategory::Permission => String::from_str(
            "🔒 Permission denied. Please check playlist access settings.",
        ),
        FeedbackCategory::Network => String::from_str(
            "🌐 Network error. Please check your connection and try again.",
        ),
        FeedbackCategory::NotFound => String::from_str(
            "❌ Spotify track not found. The track may have been removed or the link is incorrect.",
        ),
        FeedbackCategory::Authentication => String::from_str(
            "🔑 Authentication error. Please contact the bot administrator.",
        ),
        FeedbackCategory::InvalidInput => String::from_str(
            "❌ Invalid Spotify track link. Please check the URL and try again.",
        ),
        FeedbackCategory::Generic => String::from_str(
            "❌ An error occurred. Please try again later.",
        ),
    }
}

} // verus!
