use cadence::yt_dlp::{
    YT_DLP_TIMEOUT_SECS, is_playable_entry, is_sign_in_message, resolve_audio_args, search_args, search_output_lines,
    yt_dlp_result,
};
use cadence::{
    CadenceError, SearchResult, YtDlpEntry, annotate_execution_failure, filter_playable,
    resolve_audio,
};

fn entry(id: &str, title: &str, duration: Option<u64>, ie_key: &str) -> YtDlpEntry {
    YtDlpEntry {
        id: id.to_string(),
        title: title.to_string(),
        artist: None,
        duration,
        ie_key: ie_key.to_string(),
    }
}

#[test]
fn thumbnail_url_is_built_from_the_video_id() {
    let entry = YtDlpEntry {
        id: "abc123".to_string(),
        title: "Some Track".to_string(),
        artist: None,
        duration: Some(120),
        ie_key: "Youtube".to_string(),
    };

    let result = SearchResult::from(entry);

    assert_eq!(result.thumbnail_url, "https://i.ytimg.com/vi/abc123/hqdefault.jpg");
}

#[test]
fn filter_playable_drops_non_video_entries() {
    let entries = vec![
        YtDlpEntry {
            id: "abc123".to_string(),
            title: "A Real Song".to_string(),
            artist: None,
            duration: Some(200),
            ie_key: "Youtube".to_string(),
        },
        YtDlpEntry {
            id: "UCRRmSKkhOKEO6vIBaxG-ejA".to_string(),
            title: "Some Artist".to_string(),
            artist: None,
            duration: None,
            ie_key: "YoutubeTab".to_string(),
        },
    ];

    let results = filter_playable(entries);

    assert_eq!(results.len(), 1);
    assert_eq!(results[0].id, "abc123");
}

#[test]
fn recognizes_sign_in_required_as_a_distinct_error() {
    let raw = CadenceError::YtDlpExecution {
        message: "ERROR: [youtube] abc123: Sign in to confirm your age.".to_string(),
    };

    let classified = annotate_execution_failure(raw, "abc123");

    assert!(matches!(
        classified,
        CadenceError::YtDlpAuthRequired { video_id } if video_id == "abc123"
    ));
}

#[test]
fn leaves_other_execution_failures_unclassified() {
    let raw = CadenceError::YtDlpExecution {
        message: "ERROR: [youtube] abc123: Video unavailable.".to_string(),
    };

    let classified = annotate_execution_failure(raw, "abc123");

    assert!(matches!(classified, CadenceError::YtDlpExecution { .. }));
}

#[test]
fn sign_in_is_recognized_in_upper_case() {
    let raw = CadenceError::YtDlpExecution { message: "PLEASE SIGN IN FIRST".to_string() };
    let classified = annotate_execution_failure(raw, "xyz");
    assert!(matches!(classified, CadenceError::YtDlpAuthRequired { video_id } if video_id == "xyz"));
}

#[test]
fn annotation_leaves_other_kinds_alone() {
    let classified = annotate_execution_failure(CadenceError::YtDlpTimeout, "abc123");
    assert!(matches!(classified, CadenceError::YtDlpTimeout));
    let classified = annotate_execution_failure(
        CadenceError::YtDlpNoAudioStream { video_id: "other".to_string() },
        "abc123",
    );
    assert!(matches!(classified, CadenceError::YtDlpNoAudioStream { video_id } if video_id == "other"));
}

#[test]
fn missing_duration_counts_as_zero() {
    let result = SearchResult::from(entry("id1", "T", None, "Youtube"));
    assert_eq!(result.duration_seconds, 0);
    assert_eq!(result.title, "T");
    assert_eq!(result.artist, None);
    let result = SearchResult::from(YtDlpEntry {
        artist: Some("Linkin Park".to_string()),
        ..entry("id2", "Numb", Some(187), "Youtube")
    });
    assert_eq!(result.duration_seconds, 187);
    assert_eq!(result.artist.as_deref(), Some("Linkin Park"));
    assert_eq!(result.id, "id2");
}

#[test]
fn filter_playable_keeps_order_and_every_video() {
    let entries = vec![
        entry("a", "A", Some(1), "Youtube"),
        entry("p", "P", None, "YoutubeTab"),
        entry("b", "B", Some(2), "Youtube"),
        entry("c", "C", Some(3), "youtube"),
        entry("d", "D", Some(4), "Youtube"),
    ];
    let ids: Vec<String> = filter_playable(entries).into_iter().map(|r| r.id).collect();
    assert_eq!(ids, vec!["a", "b", "d"]);
    assert!(filter_playable(Vec::new()).is_empty());
}

#[test]
fn playable_means_video_entries_only() {
    assert!(is_playable_entry(&entry("a", "A", None, "Youtube")));
    assert!(!is_playable_entry(&entry("a", "A", None, "YoutubeTab")));
    assert!(!is_playable_entry(&entry("a", "A", None, "")));
}

#[test]
fn search_asks_for_flat_json_lines() {
    assert_eq!(
        search_args("Imagine Dragons Believer", 1),
        vec!["--flat-playlist", "-j", "ytsearch1:Imagine Dragons Believer"]
    );
    assert_eq!(search_args("Linkin Park Numb", 3)[2], "ytsearch3:Linkin Park Numb");
    assert_eq!(search_args("x", 0)[2], "ytsearch0:x");
    assert_eq!(search_args("q", 4294967295)[2], "ytsearch4294967295:q");
    assert_eq!(search_args("q", 10)[2], "ytsearch10:q");
}

#[test]
fn resolve_asks_for_best_audio_url() {
    assert_eq!(
        resolve_audio_args("7wtfhZwyrcc"),
        vec!["-f", "bestaudio", "-g", "https://www.youtube.com/watch?v=7wtfhZwyrcc"]
    );
}

#[test]
fn search_output_skips_blank_lines() {
    let out = "{\"id\":\"a\"}\n\n   \t\n{\"id\":\"b\"}\r\n{\"id\":\"c\"}";
    assert_eq!(search_output_lines(out), vec!["{\"id\":\"a\"}", "{\"id\":\"b\"}", "{\"id\":\"c\"}"]);
    assert!(search_output_lines("").is_empty());
    assert!(search_output_lines("\n\n \r\n").is_empty());
    assert_eq!(search_output_lines("x\n"), vec!["x"]);
    assert_eq!(search_output_lines(" y \r"), vec![" y \r"]);
}

#[test]
fn resolve_audio_takes_the_trimmed_first_line() {
    let url = resolve_audio("v1", Ok("  https://example.com/a.m4a \r\nhttps://other\n".to_string()));
    assert_eq!(url.unwrap(), "https://example.com/a.m4a");
}

#[test]
fn resolve_audio_reports_no_stream_for_empty_output() {
    for out in ["", "\n", "   \nhttps://late", "\u{3000}\t"] {
        let r = resolve_audio("v2", Ok(out.to_string()));
        assert!(matches!(r, Err(CadenceError::YtDlpNoAudioStream { video_id }) if video_id == "v2"));
    }
}

#[test]
fn resolve_audio_classifies_failed_runs() {
    let r = resolve_audio(
        "v3",
        Err(CadenceError::YtDlpExecution { message: "Sign in to confirm you're not a bot".to_string() }),
    );
    assert!(matches!(r, Err(CadenceError::YtDlpAuthRequired { video_id }) if video_id == "v3"));
    let r = resolve_audio("v3", Err(CadenceError::YtDlpTimeout));
    assert!(matches!(r, Err(CadenceError::YtDlpTimeout)));
}

#[test]
fn yt_dlp_result_reads_stdout_or_trimmed_stderr() {
    let ok = yt_dlp_result(true, b"line one\nline two\n", b"ignored");
    assert_eq!(ok.unwrap(), "line one\nline two\n");
    let failed = yt_dlp_result(false, b"", b"  ERROR: boom\n");
    assert!(matches!(failed, Err(CadenceError::YtDlpExecution { message }) if message == "ERROR: boom"));
    let lossy = yt_dlp_result(true, &[0x61, 0xff, 0x62], b"");
    assert_eq!(lossy.unwrap(), "a\u{FFFD}b");
}

#[test]
fn timeout_is_fifteen_seconds() {
    assert_eq!(YT_DLP_TIMEOUT_SECS, 15);
}

#[test]
fn sign_in_wording_is_recognized_in_lower_case_text() {
    assert!(is_sign_in_message("error: [youtube] abc123: sign in to confirm your age."));
    assert!(!is_sign_in_message("error: [youtube] abc123: video unavailable."));
    assert!(!is_sign_in_message("Sign in required"));
    assert!(!is_sign_in_message("signin"));
}
