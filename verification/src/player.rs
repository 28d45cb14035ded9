//! The player: which track is loaded, and the decisions that compose yt-dlp
//! and mpv into playing, stopping and reporting state. mpv itself knows only
//! a stream URL, not which search result is playing; this remembers it.
use crate::error::CadenceError;
use crate::models::{PlaybackStatus, SearchResult, playback_status, status_of};
use vstd::prelude::*;

verus! {

/// The loaded track, if any.
pub struct PlayerService {
    current: Option<SearchResult>,
}

impl View for PlayerService {
    type V = Option<SearchResult>;

    closed spec fn view(&self) -> Option<SearchResult> {
        self.current
    }
}

/// Where playing a track has got to.
#[derive(Debug)]
pub enum PlayProgress {
    /// Playing was asked for.
    Requested,
    /// yt-dlp resolved (or failed to resolve) the track's audio stream URL.
    Resolved(Result<String, CadenceError>),
    /// mpv loaded (or failed to load) the URL.
    Loaded(Result<(), CadenceError>),
}

/// What to do next to play a track.
#[derive(Debug)]
pub enum PlayAction {
    /// Resolve the audio of the video with this id.
    ResolveAudio(String),
    /// Have mpv load this stream URL.
    LoadAudio(String),
    /// Playing is finished, with this outcome.
    Done(Result<(), CadenceError>),
}

/// The step of playing `track` that follows `progress`: resolve the track's
/// audio, then load the URL, and only once mpv has loaded it is the track
/// the current one. Any failure ends the attempt with that failure.
pub open spec fn play_step(
    track: SearchResult,
    progress: PlayProgress,
    action: PlayAction,
) -> bool {
    match progress {
        PlayProgress::Requested => action matches PlayAction::ResolveAudio(id) && id@ == track.id@,
        PlayProgress::Resolved(Ok(url)) => action matches PlayAction::LoadAudio(u) && u@ == url@,
        PlayProgress::Resolved(Err(e)) => action matches PlayAction::Done(Err(x)) && x == e,
        PlayProgress::Loaded(Ok(())) => action matches PlayAction::Done(Ok(())),
        PlayProgress::Loaded(Err(e)) => action matches PlayAction::Done(Err(x)) && x == e,
    }
}

/// Whether `progress` is mpv having loaded the track.
pub open spec fn is_loaded(progress: PlayProgress) -> bool {
    progress matches PlayProgress::Loaded(Ok(()))
}

/// The loaded track after a step of playing `track`: `track` once mpv has
/// loaded it, otherwise what was loaded before.
pub open spec fn after_play(
    current: Option<SearchResult>,
    track: SearchResult,
    progress: PlayProgress,
) -> Option<SearchResult> {
    if is_loaded(progress) {
        Some(track)
    } else {
        current
    }
}

/// The loaded track after asking mpv to stop: none once it has stopped,
/// otherwise what was loaded before.
pub open spec fn after_stop(
    current: Option<SearchResult>,
    stopped: Result<(), CadenceError>,
) -> Option<SearchResult> {
    if stopped is Ok {
        None
    } else {
        current
    }
}

impl PlayerService {
    /// A player with no track loaded, as it is right after connecting to mpv.
    pub fn new() -> (p: PlayerService)
        ensures
            p@ is None,
    {
        PlayerService { current: None }
    }

    /// Advances playing `track`. The loaded track changes only when mpv has
    /// loaded the track's audio; then it is `track`, never the stream URL,
    /// which is resolved afresh each time a track is played.
    pub fn play(&mut self, track: &SearchResult, progress: PlayProgress) -> (action: PlayAction)
        ensures
            play_step(*track, progress, action),
            final(self)@ == after_play(old(self)@, *track, progress),
    {
        match progress {
            PlayProgress::Requested => PlayAction::ResolveAudio(track.id.clone()),
            PlayProgress::Resolved(Ok(url)) => PlayAction::LoadAudio(url),
            PlayProgress::Resolved(Err(e)) => PlayAction::Done(Err(e)),
            PlayProgress::Loaded(Ok(())) => {
                self.current = Some(track.clone());
                PlayAction::Done(Ok(()))
            },
            PlayProgress::Loaded(Err(e)) => PlayAction::Done(Err(e)),
        }
    }

    /// Records the outcome of asking mpv to stop: once mpv has stopped, no
    /// track is loaded; if it failed, the track stays and the failure is
    /// returned.
    pub fn stop(&mut self, stopped: Result<(), CadenceError>) -> (r: Result<(), CadenceError>)
        ensures
            final(self)@ == after_stop(old(self)@, stopped),
            stopped is Ok ==> r is Ok,
            stopped matches Err(e) ==> r matches Err(x) && x == e,
    {
        match stopped {
            Ok(()) => {
                self.current = None;
                Ok(())
            },
            Err(e) => Err(e),
        }
    }

    /// The loaded track.
    pub fn current(&self) -> (c: Option<SearchResult>)
        ensures
            c == self@,
    {
        match &self.current {
            Some(t) => Some(t.clone()),
            None => None,
        }
    }

    /// The player's status and loaded track, given whether mpv reports itself
    /// paused. The status is derived afresh, so it cannot drift out of step
    /// with mpv: stopped when no track is loaded, otherwise paused or playing.
    pub fn state(&self, mpv_paused: bool) -> (r: (PlaybackStatus, Option<SearchResult>))
        ensures
            r.0 == status_of(self@ is Some, mpv_paused),
            r.1 == self@,
    {
        let current = self.current();
        let status = playback_status(current.is_some(), mpv_paused);
        (status, current)
    }
}

/// The status is never `Loading`: it is stopped, playing or paused.
pub proof fn lemma_status_is_settled(has_track: bool, paused: bool)
    ensures
        status_of(has_track, paused) != PlaybackStatus::Loading,
{
}

/// A track that mpv has loaded is reported as the current track, paused
/// exactly when mpv is paused; so pausing and resuming mpv shows in the state.
pub proof fn lemma_state_after_load(
    current: Option<SearchResult>,
    track: SearchResult,
    paused: bool,
)
    ensures
        after_play(current, track, PlayProgress::Loaded(Ok(()))) == Some(track),
        status_of(after_play(current, track, PlayProgress::Loaded(Ok(()))) is Some, paused) == (
        if paused {
            PlaybackStatus::Paused
        } else {
            PlaybackStatus::Playing
        }),
{
}

/// A play that fails, at whatever step, leaves the loaded track as it was;
/// so do the steps before mpv has loaded the track.
pub proof fn lemma_unfinished_play_changes_nothing(
    current: Option<SearchResult>,
    track: SearchResult,
    progress: PlayProgress,
)
    requires
        !is_loaded(progress),
    ensures
        after_play(current, track, progress) == current,
{
}

/// Once mpv has stopped, the player reports no track and the stopped status,
/// whatever was playing and whatever mpv says of pausing.
pub proof fn lemma_stop_clears(current: Option<SearchResult>, paused: bool)
    ensures
        after_stop(current, Ok(())) is None,
        status_of(after_stop(current, Ok(())) is Some, paused) == PlaybackStatus::Stopped,
{
}

/// A fresh player is stopped.
pub proof fn lemma_starts_stopped(paused: bool)
    ensures
        status_of(false, paused) == PlaybackStatus::Stopped,
{
}

/// Every play starts by resolving the track's audio afresh, whatever is
/// loaded, even for the track that is already playing: stream URLs expire,
/// so none is kept between plays.
pub proof fn lemma_every_play_resolves_afresh(track: SearchResult, action: PlayAction)
    requires
        play_step(track, PlayProgress::Requested, action),
    ensures
        action matches PlayAction::ResolveAudio(id) && id@ == track.id@,
{
}

/// Playing reports success only once mpv has loaded the track: whatever the
/// step, a `Done(Ok)` answer means the progress was a successful load.
pub proof fn lemma_play_succeeds_only_when_loaded(
    track: SearchResult,
    progress: PlayProgress,
    action: PlayAction,
)
    requires
        play_step(track, progress, action),
        action matches PlayAction::Done(Ok(())),
    ensures
        progress matches PlayProgress::Loaded(Ok(())),
{
}

/// Every failure on the way propagates unchanged: when resolving the audio
/// or loading it fails with an error, of whatever kind, playing ends with
/// that same error.
pub proof fn lemma_play_propagates_every_error(
    track: SearchResult,
    progress: PlayProgress,
    action: PlayAction,
    e: CadenceError,
)
    requires
        play_step(track, progress, action),
        progress == PlayProgress::Resolved(Err(e)) || progress == PlayProgress::Loaded(Err(e)),
    ensures
        action matches PlayAction::Done(Err(x)) && x == e,
{
}

/// A play ends in failure only with an error that resolving or loading
/// reported.
pub proof fn lemma_play_fails_only_with_reported_error(
    track: SearchResult,
    progress: PlayProgress,
    action: PlayAction,
    e: CadenceError,
)
    requires
        play_step(track, progress, action),
        action matches PlayAction::Done(Err(x)) && x == e,
    ensures
        progress == PlayProgress::Resolved(Err(e)) || progress == PlayProgress::Loaded(Err(e)),
{
}

/// A resolved URL is loaded as it is, and loading follows resolving.
pub proof fn lemma_resolved_url_is_loaded(track: SearchResult, url: String, action: PlayAction)
    requires
        play_step(track, PlayProgress::Resolved(Ok(url)), action),
    ensures
        action matches PlayAction::LoadAudio(u) && u@ == url@,
{
}

/// The current track is the last one that mpv loaded: a successful load
/// makes `track` current, any other step leaves the current track as it was,
/// and a successful stop clears it while a failed one keeps it.
pub proof fn lemma_current_track_transitions(
    current: Option<SearchResult>,
    track: SearchResult,
    progress: PlayProgress,
    stopped: Result<(), CadenceError>,
)
    ensures
        progress matches PlayProgress::Loaded(Ok(())) ==> after_play(current, track, progress)
            == Some(track),
        !(progress matches PlayProgress::Loaded(Ok(()))) ==> after_play(current, track, progress)
            == current,
        stopped is Ok ==> after_stop(current, stopped) is None,
        stopped is Err ==> after_stop(current, stopped) == current,
{
}

/// The status, case by case: stopped exactly when no track is loaded, paused
/// exactly when a track is loaded and mpv is paused, playing exactly when a
/// track is loaded and mpv is not paused.
pub proof fn lemma_status_cases(has_track: bool, paused: bool)
    ensures
        (status_of(has_track, paused) == PlaybackStatus::Stopped) == !has_track,
        (status_of(has_track, paused) == PlaybackStatus::Paused) == (has_track && paused),
        (status_of(has_track, paused) == PlaybackStatus::Playing) == (has_track && !paused),
{
}

} // verus!
