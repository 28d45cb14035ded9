use cadence::{
    CadenceError, HealthStatus, PlayAction, PlayProgress, PlaybackStatus, PlayerService, SearchResult, health,
    playback_status,
};

fn sample_track() -> SearchResult {
    SearchResult {
        id: "7wtfhZwyrcc".into(),
        title: "Believer".into(),
        artist: Some("Imagine Dragons".into()),
        duration_seconds: 217,
        thumbnail_url: "https://i.ytimg.com/vi/7wtfhZwyrcc/hqdefault.jpg".into(),
    }
}

/// Plays `track` with the given outcomes for resolving and loading.
fn play(
    player: &mut PlayerService,
    track: &SearchResult,
    resolved: Result<String, CadenceError>,
    loaded: Result<(), CadenceError>,
) -> Result<(), CadenceError> {
    let mut resolved = Some(resolved);
    let mut loaded = Some(loaded);
    let mut progress = PlayProgress::Requested;
    loop {
        match player.play(track, progress) {
            PlayAction::ResolveAudio(id) => {
                assert_eq!(id, track.id);
                progress = PlayProgress::Resolved(resolved.take().expect("resolved once"));
            }
            PlayAction::LoadAudio(url) => {
                assert_eq!(url, "https://stream.example/audio");
                progress = PlayProgress::Loaded(loaded.take().expect("loaded once"));
            }
            PlayAction::Done(r) => return r,
        }
    }
}

#[test]
fn starts_stopped_with_no_current_track() {
    let player = PlayerService::new();

    let (status, current) = player.state(false);

    assert_eq!(status, PlaybackStatus::Stopped);
    assert!(current.is_none());
}

#[test]
fn play_resolves_and_loads_the_track() {
    let mut player = PlayerService::new();
    let track = sample_track();
    let track_id = track.id.clone();

    play(&mut player, &track, Ok("https://stream.example/audio".into()), Ok(())).expect("play");
    let (status, current) = player.state(false);

    assert_eq!(status, PlaybackStatus::Playing);
    assert_eq!(current.map(|t| t.id), Some(track_id));
}

#[test]
fn pause_and_resume_are_reflected_in_state() {
    let mut player = PlayerService::new();
    play(&mut player, &sample_track(), Ok("https://stream.example/audio".into()), Ok(())).expect("play");

    assert_eq!(player.state(true).0, PlaybackStatus::Paused);
    assert_eq!(player.state(false).0, PlaybackStatus::Playing);
}

#[test]
fn stop_clears_the_current_track() {
    let mut player = PlayerService::new();
    play(&mut player, &sample_track(), Ok("https://stream.example/audio".into()), Ok(())).expect("play");

    player.stop(Ok(())).expect("stop");
    let (status, current) = player.state(false);

    assert_eq!(status, PlaybackStatus::Stopped);
    assert!(current.is_none());
}

#[test]
fn failed_play_keeps_the_previous_track() {
    let mut player = PlayerService::new();
    let first = sample_track();
    play(&mut player, &first, Ok("https://stream.example/audio".into()), Ok(())).expect("play");
    let second = SearchResult { id: "other".into(), ..sample_track() };

    let r = play(&mut player, &second, Err(CadenceError::YtDlpTimeout), Ok(()));
    assert!(matches!(r, Err(CadenceError::YtDlpTimeout)));
    assert_eq!(player.current(), Some(first.clone()));

    let r = play(&mut player, &second, Ok("https://stream.example/audio".into()), Err(CadenceError::MpvConnectionClosed));
    assert!(matches!(r, Err(CadenceError::MpvConnectionClosed)));
    assert_eq!(player.current(), Some(first));
}

#[test]
fn failed_stop_keeps_the_track() {
    let mut player = PlayerService::new();
    play(&mut player, &sample_track(), Ok("https://stream.example/audio".into()), Ok(())).expect("play");
    let r = player.stop(Err(CadenceError::MpvConnectionClosed));
    assert!(matches!(r, Err(CadenceError::MpvConnectionClosed)));
    assert_eq!(player.state(false).0, PlaybackStatus::Playing);
}

#[test]
fn status_follows_track_and_pause() {
    assert_eq!(playback_status(false, false), PlaybackStatus::Stopped);
    assert_eq!(playback_status(false, true), PlaybackStatus::Stopped);
    assert_eq!(playback_status(true, true), PlaybackStatus::Paused);
    assert_eq!(playback_status(true, false), PlaybackStatus::Playing);
}

#[test]
fn health_reports_failures_as_false() {
    assert_eq!(health(true, Some(true)), HealthStatus { mpv: true, yt_dlp: true });
    assert_eq!(health(false, Some(false)), HealthStatus { mpv: false, yt_dlp: false });
    assert_eq!(health(true, None), HealthStatus { mpv: true, yt_dlp: false });
}

#[test]
fn search_results_clone_equal() {
    let t = sample_track();
    assert_eq!(t.clone(), t);
}

#[test]
fn replaying_a_track_resolves_it_again() {
    let mut player = PlayerService::new();
    let track = sample_track();
    play(&mut player, &track, Ok("https://stream.example/audio".into()), Ok(())).expect("play");
    match player.play(&track, PlayProgress::Requested) {
        PlayAction::ResolveAudio(id) => assert_eq!(id, track.id),
        other => panic!("unexpected action {other:?}"),
    }
}
