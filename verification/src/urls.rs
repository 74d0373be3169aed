//! Track-link handling: finding links in message text, parsing link and
//! URI forms into their kind and identifier, and the URI helpers the
//! playlist layer uses. General URL parsing is the url crate's work,
//! called through trusted items; every decision on what it returns is
//! verified here.

use vstd::prelude::*;
use vstd::string::*;
use crate::errors::MessageProcessingError;
use crate::models::SpotifyUrlType;
use crate::text::{contains_sub, has_prefix, spec_contains_seq, spec_has_prefix, str_eq};
use url::Url;

verus! {

/// A separator character in message text.
pub open spec fn spec_is_space(c: char) -> bool {
    c == ' ' || c == '\t' || c == '\n' || c == '\r'
}

/// Text that names the service: it mentions its host or starts with its
/// URI scheme.
pub open spec fn spec_is_spotify_text(t: Seq<char>) -> bool {
    spec_contains_seq(t, "spotify.com"@) || spec_has_prefix(t, "spotify:"@)
}

/// Whether a word of a message is a service link.
pub fn is_spotify_url(text: &str) -> (r: bool)
    ensures
        r == spec_is_spotify_text(text@),
{
    contains_sub(text, "spotify.com") || has_prefix(text, "spotify:")
}

/// The service links among the whitespace-separated words of `s`, in
/// order, with `cur` the partial word already read.
pub open spec fn spec_extract_step(s: Seq<char>, cur: Seq<char>) -> Seq<Seq<char>>
    decreases s.len(),
{
    if s.len() == 0 {
        if cur.len() > 0 && spec_is_spotify_text(cur) {
            seq![cur]
        } else {
            Seq::empty()
        }
    } else if spec_is_space(s[0]) {
        (if cur.len() > 0 && spec_is_spotify_text(cur) {
            seq![cur]
        } else {
            Seq::empty()
        }) + spec_extract_step(s.drop_first(), Seq::empty())
    } else {
        spec_extract_step(s.drop_first(), cur.push(s[0]))
    }
}

/// The service links among the whitespace-separated words of a message.
pub open spec fn spec_extract_urls(s: Seq<char>) -> Seq<Seq<char>> {
    spec_extract_step(s, Seq::empty())
}

/// Collect the service links among the whitespace-separated words of a
/// message, in message order.
#[verifier::loop_isolation(false)]
pub fn extract_spotify_urls(content: &str) -> (r: Vec<String>)
    ensures
        r@.map_values(|u: String| u@) == spec_extract_urls(content@),
{
    let n = content.unicode_len();
    let mut out: Vec<String> = Vec::new();
    let mut cur = String::new();
    let mut i: usize = 0;
    proof {
        assert(content@.subrange(0, n as int) =~= content@);
        assert(out@.map_values(|u: String| u@) + spec_extract_step(content@, Seq::empty())
            =~= spec_extract_step(content@, Seq::empty()));
    }
    while i < n
        invariant
            i <= n,
            n == content@.len(),
            spec_extract_urls(content@) == out@.map_values(|u: String| u@) + spec_extract_step(
                content@.subrange(i as int, n as int),
                cur@,
            ),
        decreases n - i,
    {
        let ghost rest = content@.subrange(i as int, n as int);
        proof {
            assert(rest[0] == content@[i as int]);
            assert(rest.drop_first() =~= content@.subrange(i as int + 1, n as int));
        }
        let c = content.get_char(i);
        if c == ' ' || c == '\t' || c == '\n' || c == '\r' {
            if cur.as_str().unicode_len() > 0 && is_spotify_url(cur.as_str()) {
                let ghost curv = cur@;
                out.push(cur);
                proof {
                    assert(out@.map_values(|u: String| u@) =~= out@.drop_last().map_values(
                        |u: String| u@,
                    ).push(curv));
                }
            }
            cur = String::new();
        } else {
            let piece = content.substring_char(i, i + 1);
            proof {
                assert(piece@ == seq![content@[i as int]]);
                assert(cur@ + piece@ =~= cur@.push(content@[i as int]));
            }
            cur.append(piece);
        }
        i = i + 1;
    }
    proof {
        assert(content@.subrange(i as int, n as int).len() == 0);
    }
    if cur.as_str().unicode_len() > 0 && is_spotify_url(cur.as_str()) {
        let ghost curv = cur@;
        out.push(cur);
        proof {
            assert(out@.map_values(|u: String| u@) =~= out@.drop_last().map_values(
                |u: String| u@,
            ).push(curv));
        }
    }
    out
}

/// The parts of `s` split at every occurrence of `sep`, empty parts kept,
/// with `cur` the partial part already read.
pub open spec fn spec_split_step(s: Seq<char>, sep: char, cur: Seq<char>) -> Seq<Seq<char>>
    decreases s.len(),
{
    if s.len() == 0 {
        seq![cur]
    } else if s[0] == sep {
        seq![cur] + spec_split_step(s.drop_first(), sep, Seq::empty())
    } else {
        spec_split_step(s.drop_first(), sep, cur.push(s[0]))
    }
}

/// The parts of `s` split at every occurrence of `sep`, empty parts kept.
pub open spec fn spec_split(s: Seq<char>, sep: char) -> Seq<Seq<char>> {
    spec_split_step(s, sep, Seq::empty())
}

/// Split a string at every occurrence of a separator, keeping empty
/// parts; the result always holds at least one part.
#[verifier::loop_isolation(false)]
pub fn split_at_char(s: &str, sep: char) -> (r: Vec<String>)
    ensures
        r@.map_values(|u: String| u@) == spec_split(s@, sep),
        r@.len() >= 1,
{
    let n = s.unicode_len();
    let mut out: Vec<String> = Vec::new();
    let mut cur = String::new();
    let mut i: usize = 0;
    proof {
        assert(s@.subrange(0, n as int) =~= s@);
        assert(out@.map_values(|u: String| u@) + spec_split_step(s@, sep, Seq::empty())
            =~= spec_split_step(s@, sep, Seq::empty()));
    }
    while i < n
        invariant
            i <= n,
            n == s@.len(),
            spec_split(s@, sep) == out@.map_values(|u: String| u@) + spec_split_step(
                s@.subrange(i as int, n as int),
                sep,
                cur@,
            ),
        decreases n - i,
    {
        let ghost rest = s@.subrange(i as int, n as int);
        proof {
            assert(rest[0] == s@[i as int]);
            assert(rest.drop_first() =~= s@.subrange(i as int + 1, n as int));
        }
        let c = s.get_char(i);
        if c == sep {
            let ghost curv = cur@;
            out.push(cur);
            proof {
                assert(out@.map_values(|u: String| u@) =~= out@.drop_last().map_values(
                    |u: String| u@,
                ).push(curv));
            }
            cur = String::new();
        } else {
            let piece = s.substring_char(i, i + 1);
            proof {
                assert(piece@ == seq![s@[i as int]]);
                assert(cur@ + piece@ =~= cur@.push(s@[i as int]));
            }
            cur.append(piece);
        }
        i = i + 1;
    }
    proof {
        assert(s@.subrange(i as int, n as int).len() == 0);
    }
    let ghost curv = cur@;
    out.push(cur);
    proof {
        assert(out@.map_values(|u: String| u@) =~= out@.drop_last().map_values(
            |u: String| u@,
        ).push(curv));
    }
    out
}

/// The non-empty parts of `s` split at `sep`, with `cur` the partial part
/// already read.
pub open spec fn spec_fields_step(s: Seq<char>, sep: char, cur: Seq<char>) -> Seq<Seq<char>>
    decreases s.len(),
{
    if s.len() == 0 {
        if cur.len() > 0 {
            seq![cur]
        } else {
            Seq::empty()
        }
    } else if s[0] == sep {
        (if cur.len() > 0 {
            seq![cur]
        } else {
            Seq::empty()
        }) + spec_fields_step(s.drop_first(), sep, Seq::empty())
    } else {
        spec_fields_step(s.drop_first(), sep, cur.push(s[0]))
    }
}

/// The non-empty parts of `s` split at `sep`.
pub open spec fn spec_fields(s: Seq<char>, sep: char) -> Seq<Seq<char>> {
    spec_fields_step(s, sep, Seq::empty())
}

/// Split a string at a separator, dropping empty parts.
#[verifier::loop_isolation(false)]
pub fn fields_at_char(s: &str, sep: char) -> (r: Vec<String>)
    ensures
        r@.map_values(|u: String| u@) == spec_fields(s@, sep),
{
    let n = s.unicode_len();
    let mut out: Vec<String> = Vec::new();
    let mut cur = String::new();
    let mut i: usize = 0;
    proof {
        assert(s@.subrange(0, n as int) =~= s@);
        assert(out@.map_values(|u: String| u@) + spec_fields_step(s@, sep, Seq::empty())
            =~= spec_fields_step(s@, sep, Seq::empty()));
    }
    while i < n
        invariant
            i <= n,
            n == s@.len(),
            spec_fields(s@, sep) == out@.map_values(|u: String| u@) + spec_fields_step(
                s@.subrange(i as int, n as int),
                sep,
                cur@,
            ),
        decreases n - i,
    {
        let ghost rest = s@.subrange(i as int, n as int);
        proof {
            assert(rest[0] == s@[i as int]);
            assert(rest.drop_first() =~= s@.subrange(i as int + 1, n as int));
        }
        let c = s.get_char(i);
        if c == sep {
            if cur.as_str().unicode_len() > 0 {
                let ghost curv = cur@;
                out.push(cur);
                proof {
                    assert(out@.map_values(|u: String| u@) =~= out@.drop_last().map_values(
                        |u: String| u@,
                    ).push(curv));
                }
            }
            cur = String::new();
        } else {
            let piece = s.substring_char(i, i + 1);
            proof {
                assert(piece@ == seq![s@[i as int]]);
                assert(cur@ + piece@ =~= cur@.push(s@[i as int]));
            }
            cur.append(piece);
        }
        i = i + 1;
    }
    proof {
        assert(s@.subrange(i as int, n as int).len() == 0);
    }
    if cur.as_str().unicode_len() > 0 {
        let ghost curv = cur@;
        out.push(cur);
        proof {
            assert(out@.map_values(|u: String| u@) =~= out@.drop_last().map_values(
                |u: String| u@,
            ).push(curv));
        }
    }
    out
}

/// The kind a content-type word names, carrying the identifier.
pub open spec fn spec_classify_kind(kind: Seq<char>, id: Seq<char>, r: SpotifyUrlType) -> bool {
    if kind == "track"@ {
        r matches SpotifyUrlType::Track(x) && x@ == id
    } else if kind == "album"@ {
        r matches SpotifyUrlType::Album(x) && x@ == id
    } else if kind == "playlist"@ {
        r matches SpotifyUrlType::Playlist(x) && x@ == id
    } else if kind == "artist"@ {
        r matches SpotifyUrlType::Artist(x) && x@ == id
    } else {
        r is Unsupported
    }
}

/// Classify one content-type word with its identifier.
fn classify_kind(kind: &str, id: String) -> (r: SpotifyUrlType)
    ensures
        spec_classify_kind(kind@, id@, r),
{
    if str_eq(kind, "track") {
        SpotifyUrlType::Track(id)
    } else if str_eq(kind, "album") {
        SpotifyUrlType::Album(id)
    } else if str_eq(kind, "playlist") {
        SpotifyUrlType::Playlist(id)
    } else if str_eq(kind, "artist") {
        SpotifyUrlType::Artist(id)
    } else {
        SpotifyUrlType::Unsupported
    }
}

/// Parse a service URI of the form `spotify:<kind>:<id>`: exactly three
/// colon-separated parts, the first the scheme, the second the kind, the
/// third the identifier.
pub fn parse_spotify_uri(uri: &str) -> (r: Result<SpotifyUrlType, MessageProcessingError>)
    ensures
        r is Err <==> !(spec_split(uri@, ':').len() == 3 && spec_split(uri@, ':')[0]
            == "spotify"@),
        r is Err ==> (r->Err_0 matches MessageProcessingError::InvalidSpotifyUrl { url } && url@
            == uri@),
        r is Ok ==> spec_classify_kind(
            spec_split(uri@, ':')[1],
            spec_split(uri@, ':')[2],
            r->Ok_0,
        ),
{
    let parts = split_at_char(uri, ':');
    if parts.len() != 3 {
        return Err(MessageProcessingError::InvalidSpotifyUrl { url: uri.to_owned() });
    }
    if !str_eq(parts[0].as_str(), "spotify") {
        return Err(MessageProcessingError::InvalidSpotifyUrl { url: uri.to_owned() });
    }
    let id = parts[2].clone();
    Ok(classify_kind(parts[1].as_str(), id))
}

/// Where a path's content-type segment stands: paths of the form
/// `/intl-xx/<kind>/<id>` carry a language segment first, and the legacy
/// `/user/<name>/<kind>/<id>` form carries two extra segments.
pub open spec fn spec_kind_segment_index(segments: Seq<Seq<char>>) -> int {
    if segments.len() >= 3 && spec_has_prefix(segments[0], "intl-"@) {
        1
    } else if segments.len() >= 4 && segments[0] == "user"@ {
        2
    } else {
        0
    }
}

/// Classify the host and path the URL parser reported for a web link:
/// only the service's web-player host is accepted, the path must hold a
/// content-type segment and an identifier (allowing for the
/// international and legacy user-playlist path forms), and the kind word
/// decides the result.
pub fn classify_spotify_path(url: &str, host: &str, path: &str) -> (r: Result<
    SpotifyUrlType,
    MessageProcessingError,
>)
    ensures
        r is Err <==> !(host@ == "open.spotify.com"@ && spec_fields(path@, '/').len()
            >= spec_kind_segment_index(spec_fields(path@, '/')) + 2),
        r is Err ==> (r->Err_0 matches MessageProcessingError::InvalidSpotifyUrl { url: u } && u@
            == url@),
        r is Ok ==> spec_classify_kind(
            spec_fields(path@, '/')[spec_kind_segment_index(spec_fields(path@, '/'))],
            spec_fields(path@, '/')[spec_kind_segment_index(spec_fields(path@, '/')) + 1],
            r->Ok_0,
        ),
{
    if !str_eq(host, "open.spotify.com") {
        return Err(MessageProcessingError::InvalidSpotifyUrl { url: url.to_owned() });
    }
    let segments = fields_at_char(path, '/');
    let kind_at: usize = if segments.len() >= 3 && has_prefix(segments[0].as_str(), "intl-") {
        1
    } else if segments.len() >= 4 && str_eq(segments[0].as_str(), "user") {
        2
    } else {
        0
    };
    if segments.len() < kind_at + 2 {
        return Err(MessageProcessingError::InvalidSpotifyUrl { url: url.to_owned() });
    }
    let id = segments[kind_at + 1].clone();
    Ok(classify_kind(segments[kind_at].as_str(), id))
}

/// Turn a track identifier into its URI form.
pub fn track_id_to_uri(track_id: &str) -> (r: String)
    ensures
        r@ == "spotify:track:"@ + track_id@,
{
    let mut uri = String::from_str("spotify:track:");
    uri.append(track_id);
    uri
}

/// The url crate's parsed URL, opaque to the verifier.
#[verifier::external_type_specification]
#[verifier::external_body]
pub struct ExUrl(Url);

/// Relies on url::Url::parse: parses an absolute URL; the error is
/// rendered to a string. Nothing is assumed about which texts parse.
#[verifier::external_body]
fn url_parse(s: &str) -> (r: Result<Url, String>) {
    Url::parse(s).map_err(|e| e.to_string())
}

/// Relies on url::Url::host_str: the host part, when the URL has one.
#[verifier::external_body]
fn url_host_str(u: &Url) -> (r: Option<String>) {
    u.host_str().map(|h| h.to_string())
}

/// Relies on url::Url::path: the path part of the URL.
#[verifier::external_body]
fn url_path(u: &Url) -> (r: String) {
    u.path().to_string()
}

/// Parse a service link in either form. A `spotify:` URI is parsed and
/// classified exactly as `parse_spotify_uri` states. A web link goes
/// through the url crate; whatever host and path it reports are then
/// classified exactly as `classify_spotify_path` states, a link it cannot
/// parse fails as unparseable, and one without a host is rejected as not
/// a service link.
pub fn parse_spotify_url(url: &str) -> (r: Result<SpotifyUrlType, MessageProcessingError>)
    ensures
        spec_has_prefix(url@, "spotify:"@) ==> {
            &&& (r is Err <==> !(spec_split(url@, ':').len() == 3 && spec_split(url@, ':')[0]
                == "spotify"@))
            &&& (r is Err ==> (r->Err_0 matches MessageProcessingError::InvalidSpotifyUrl {
                url: u,
            } && u@ == url@))
            &&& (r is Ok ==> spec_classify_kind(
                spec_split(url@, ':')[1],
                spec_split(url@, ':')[2],
                r->Ok_0,
            ))
        },
        !spec_has_prefix(url@, "spotify:"@) ==> (r is Err ==> ((r->Err_0 matches
            MessageProcessingError::UrlParsingFailed(_)) || (r->Err_0 matches
            MessageProcessingError::InvalidSpotifyUrl { url: u } && u@ == url@))),
{
    if has_prefix(url, "spotify:") {
        return parse_spotify_uri(url);
    }
    let parsed = match url_parse(url) {
        Ok(p) => p,
        Err(msg) => {
            return Err(MessageProcessingError::UrlParsingFailed(msg));
        },
    };
    let host = match url_host_str(&parsed) {
        Some(h) => h,
        None => {
            return Err(MessageProcessingError::InvalidSpotifyUrl { url: url.to_owned() });
        },
    };
    let path = url_path(&parsed);
    classify_spotify_path(url, host.as_str(), path.as_str())
}

/// Extract the track identifier from a track link: any link that parses
/// to a kind other than a track is refused.
pub fn extract_track_id(url: &str) -> (r: Result<String, MessageProcessingError>)
    ensures
        spec_has_prefix(url@, "spotify:"@) && spec_split(url@, ':').len() == 3 && spec_split(
            url@,
            ':',
        )[0] == "spotify"@ && spec_split(url@, ':')[1] == "track"@ ==> r is Ok && r->Ok_0@
            == spec_split(url@, ':')[2],
        spec_has_prefix(url@, "spotify:"@) && spec_split(url@, ':').len() == 3 && spec_split(
            url@,
            ':',
        )[0] == "spotify"@ && spec_split(url@, ':')[1] != "track"@ ==> r is Err,
{
    match parse_spotify_url(url)? {
        SpotifyUrlType::Track(id) => Ok(id),
        _ => Err(MessageProcessingError::TrackIdExtractionFailed { url: url.to_owned() }),
    }
}

/// Check that a link is a supported track link, returning its
/// identifier; every non-track kind is refused as unsupported.
pub fn validate_track_url(url: &str) -> (r: Result<String, MessageProcessingError>)
    ensures
        spec_has_prefix(url@, "spotify:"@) && spec_split(url@, ':').len() == 3 && spec_split(
            url@,
            ':',
        )[0] == "spotify"@ && spec_split(url@, ':')[1] == "track"@ ==> r is Ok && r->Ok_0@
            == spec_split(url@, ':')[2],
        spec_has_prefix(url@, "spotify:"@) && spec_split(url@, ':').len() == 3 && spec_split(
            url@,
            ':',
        )[0] == "spotify"@ && spec_split(url@, ':')[1] != "track"@ ==> r is Err && (r
            ->Err_0 matches MessageProcessingError::UnsupportedUrlType { url: u } && u@
            == url@),
{
    match parse_spotify_url(url)? {
        SpotifyUrlType::Track(id) => Ok(id),
        SpotifyUrlType::Unsupported => Err(
            MessageProcessingError::UnsupportedUrlType { url: url.to_owned() },
        ),
        _ => Err(MessageProcessingError::UnsupportedUrlType { url: url.to_owned() }),
    }
}

/// Operations a message-processing front end offers the chat integration.
pub trait MessageProcessing {
    /// Extract service links from message text.
    fn extract_spotify_urls(&self, content: &str) -> Vec<String>;

    /// Parse a service link and determine its kind.
    fn parse_spotify_url(&self, url: &str) -> Result<SpotifyUrlType, MessageProcessingError>;

    /// Extract the track identifier from a track link.
    fn extract_track_id(&self, url: &str) -> Result<String, MessageProcessingError>;

    /// Check that a link is a supported track link, returning its
    /// identifier.
    fn validate_track_url(&self, url: &str) -> Result<String, MessageProcessingError>;
}

} // verus!
