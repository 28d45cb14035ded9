//! Plain values shared with the user interface: a search result, the playback
//! status, and the health report.
use vstd::prelude::*;

verus! {

/// Where playback stands.
#[derive(Debug, Clone, Copy, PartialEq, Eq, Structural)]
pub enum PlaybackStatus {
    Stopped,
    Loading,
    Playing,
    Paused,
}

/// One video that a search found.
#[derive(Debug, PartialEq, Eq)]
pub struct SearchResult {
    pub id: String,
    pub title: String,
    pub artist: Option<String>,
    pub duration_seconds: u64,
    pub thumbnail_url: String,
}

/// A search result as text and numbers.
pub struct SearchResultView {
    pub id: Seq<char>,
    pub title: Seq<char>,
    pub artist: Option<Seq<char>>,
    pub duration_seconds: u64,
    pub thumbnail_url: Seq<char>,
}

/// The text of an optional string.
pub open spec fn opt_text(s: Option<String>) -> Option<Seq<char>> {
    match s {
        Some(t) => Some(t@),
        None => None,
    }
}

impl View for SearchResult {
    type V = SearchResultView;

    open spec fn view(&self) -> SearchResultView {
        SearchResultView {
            id: self.id@,
            title: self.title@,
            artist: opt_text(self.artist),
            duration_seconds: self.duration_seconds,
            thumbnail_url: self.thumbnail_url@,
        }
    }
}

/// A copy of an optional string.
pub fn copy_opt_string(s: &Option<String>) -> (c: Option<String>)
    ensures
        c == *s,
{
    match s {
        Some(t) => Some(t.clone()),
        None => None,
    }
}

impl Clone for SearchResult {
    fn clone(&self) -> (c: Self)
        ensures
            c == *self,
    {
        SearchResult {
            id: self.id.clone(),
            title: self.title.clone(),
            artist: copy_opt_string(&self.artist),
            duration_seconds: self.duration_seconds,
            thumbnail_url: self.thumbnail_url.clone(),
        }
    }
}

/// The status shown for the player: stopped while no track is loaded,
/// otherwise paused or playing as mpv reports.
pub open spec fn status_of(has_track: bool, paused: bool) -> PlaybackStatus {
    if !has_track {
        PlaybackStatus::Stopped
    } else if paused {
        PlaybackStatus::Paused
    } else {
        PlaybackStatus::Playing
    }
}

/// Derives the playback status from whether a track is loaded and whether
/// mpv is paused; it is computed on every query rather than stored, so it
/// cannot drift from what mpv does.
pub fn playback_status(has_track: bool, paused: bool) -> (s: PlaybackStatus)
    ensures
        s == status_of(has_track, paused),
{
    if !has_track {
        PlaybackStatus::Stopped
    } else if paused {
        PlaybackStatus::Paused
    } else {
        PlaybackStatus::Playing
    }
}

/// Which of the two outside programs answer.
#[derive(Debug, Clone, Copy, PartialEq, Eq, Structural)]
pub struct HealthStatus {
    pub mpv: bool,
    pub yt_dlp: bool,
}

/// The health report: mpv is healthy when a state query succeeded, yt-dlp
/// when `yt-dlp --version` ran and exited successfully (`None` when it could
/// not be run at all). A failed check is reported as `false`, never as an
/// error.
pub fn health(mpv_state_ok: bool, yt_dlp_version_exit: Option<bool>) -> (h: HealthStatus)
    ensures
        h.mpv == mpv_state_ok,
        h.yt_dlp == (yt_dlp_version_exit == Some(true)),
{
    let yt_dlp = match yt_dlp_version_exit {
        Some(success) => success,
        None => false,
    };
    HealthStatus { mpv: mpv_state_ok, yt_dlp }
}

} // verus!
