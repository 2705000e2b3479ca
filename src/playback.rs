//! Playback session and the URLs media are fetched from.
use vstd::prelude::*;
use crate::text::join;

verus! {

/// Prefix under which whole media files are served.
pub const DIRECT_PREFIX: &'static str = "/video/";

/// Prefix under which segmented streams are served.
pub const STREAM_PREFIX: &'static str = "/hls/";

/// File name of a stream's manifest, after the path.
pub const MANIFEST_SUFFIX: &'static str = "/playlist.m3u8";

/// How the server delivers media.
#[derive(Clone, Copy, Debug, PartialEq, Eq)]
pub enum DeliveryMode {
    /// One complete file per path.
    Direct,
    /// A manifest of bitrate-segmented streams per path.
    Adaptive,
}

/// The URL of the whole file at `path`.
pub open spec fn direct_url_of(path: Seq<char>) -> Seq<char> {
    DIRECT_PREFIX@ + path
}

/// The URL of the stream manifest for `path`.
pub open spec fn manifest_url_of(path: Seq<char>) -> Seq<char> {
    STREAM_PREFIX@ + path + MANIFEST_SUFFIX@
}

/// The URL a player loads for `path` in the given delivery mode.
pub open spec fn playback_url_of(path: Seq<char>, mode: DeliveryMode) -> Seq<char> {
    match mode {
        DeliveryMode::Direct => direct_url_of(path),
        DeliveryMode::Adaptive => manifest_url_of(path),
    }
}

/// The URL of the whole file at `path`, relative to the page origin.
pub fn direct_url(path: &str) -> (r: String)
    ensures
        r@ == direct_url_of(path@),
{
    join(DIRECT_PREFIX, path)
}

/// The URL a player loads for `path` in delivery mode `mode`.
pub fn resolve_playback_url(path: &str, mode: DeliveryMode) -> (r: String)
    ensures
        r@ == playback_url_of(path@, mode),
{
    match mode {
        DeliveryMode::Direct => direct_url(path),
        DeliveryMode::Adaptive => {
            let mut r = join(STREAM_PREFIX, path);
            r.append(MANIFEST_SUFFIX);
            r
        },
    }
}

/// The video being played: its path and the title shown above the player.
#[derive(Clone, Debug, PartialEq, Eq)]
pub struct PlaybackSession {
    pub path: String,
    pub title: String,
}

} // verus!
