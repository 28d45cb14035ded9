//! What the library decides around yt-dlp: the command lines for a search and
//! for resolving a video's audio, how yt-dlp's exit and output are read, which
//! search entries are playable, and how a failure is classified.
use crate::error::CadenceError;
use crate::models::{SearchResult, SearchResultView, opt_text};
use crate::text::{
    contains_seq, contains_str, decimal, first_line, first_line_trimmed, from_utf8_lossy, is_blank,
    lines, lowercase, non_blank_lines, push_decimal, same_text, string_views, to_lowercase, trim,
    trim_str, utf8_lossy,
};
use vstd::prelude::*;

verus! {

broadcast use vstd::seq_lib::group_seq_properties;

/// How long yt-dlp may run before it is given up on, in seconds.
pub const YT_DLP_TIMEOUT_SECS: u64 = 15;

/// One line of yt-dlp's `--flat-playlist -j` output, as far as search reads
/// it. `duration` is in whole seconds (yt-dlp's fractional seconds, truncated).
#[derive(Debug, PartialEq, Eq)]
pub struct YtDlpEntry {
    pub id: String,
    pub title: String,
    pub artist: Option<String>,
    pub duration: Option<u64>,
    pub ie_key: String,
}

/// A search entry as text and numbers.
pub struct YtDlpEntryView {
    pub id: Seq<char>,
    pub title: Seq<char>,
    pub artist: Option<Seq<char>>,
    pub duration: Option<u64>,
    pub ie_key: Seq<char>,
}

impl View for YtDlpEntry {
    type V = YtDlpEntryView;

    open spec fn view(&self) -> YtDlpEntryView {
        YtDlpEntryView {
            id: self.id@,
            title: self.title@,
            artist: opt_text(self.artist),
            duration: self.duration,
            ie_key: self.ie_key@,
        }
    }
}

/// YouTube's thumbnail URL for a video id; flat search output carries no
/// thumbnail, so it is built from the id.
pub open spec fn thumbnail_url_for(id: Seq<char>) -> Seq<char> {
    "https://i.ytimg.com/vi/"@ + id + "/hqdefault.jpg"@
}

/// The search result made from a search entry: a missing duration counts as 0.
pub open spec fn result_of_entry(e: YtDlpEntryView) -> SearchResultView {
    SearchResultView {
        id: e.id,
        title: e.title,
        artist: e.artist,
        duration_seconds: match e.duration {
            Some(d) => d,
            None => 0,
        },
        thumbnail_url: thumbnail_url_for(e.id),
    }
}

/// An entry is playable when yt-dlp extracted it as a video ("Youtube"), not a
/// channel or playlist ("YoutubeTab" and others).
pub open spec fn is_playable(e: YtDlpEntryView) -> bool {
    e.ie_key == "Youtube"@
}

/// The views of a sequence of entries.
pub open spec fn entry_views(v: Seq<YtDlpEntry>) -> Seq<YtDlpEntryView> {
    v.map_values(|e: YtDlpEntry| e@)
}

/// The views of a sequence of search results.
pub open spec fn result_views(v: Seq<SearchResult>) -> Seq<SearchResultView> {
    v.map_values(|r: SearchResult| r@)
}

/// The search results kept from a list of entries, in order.
pub open spec fn playable_results(v: Seq<YtDlpEntryView>) -> Seq<SearchResultView> {
    v.filter(|e: YtDlpEntryView| is_playable(e)).map_values(|e: YtDlpEntryView| result_of_entry(e))
}


impl SearchResult {
    /// The search result for a search entry.
    pub fn from(entry: YtDlpEntry) -> (r: SearchResult)
        ensures
            r@ == result_of_entry(entry@),
    {
        let mut thumbnail_url = String::new();
        thumbnail_url.append("https://i.ytimg.com/vi/");
        thumbnail_url.append(entry.id.as_str());
        thumbnail_url.append("/hqdefault.jpg");
        let duration_seconds = match entry.duration {
            Some(d) => d,
            None => 0,
        };
        SearchResult {
            id: entry.id,
            title: entry.title,
            artist: entry.artist,
            duration_seconds,
            thumbnail_url,
        }
    }
}

/// Whether an entry is playable.
pub fn is_playable_entry(entry: &YtDlpEntry) -> (b: bool)
    ensures
        b == is_playable(entry@),
{
    proof {
        reveal_strlit("Youtube");
    }
    same_text(entry.ie_key.as_str(), "Youtube")
}

/// Keeps the entries that are videos, in order, as search results. A search
/// may therefore give fewer results than asked for, never a result that
/// nothing can play.
pub fn filter_playable(entries: Vec<YtDlpEntry>) -> (results: Vec<SearchResult>)
    ensures
        result_views(results@) == playable_results(entry_views(entries@)),
{
    let ghost pred = |e: YtDlpEntryView| is_playable(e);
    let ghost f = |e: YtDlpEntryView| result_of_entry(e);
    let ghost all = entries@;
    let mut results: Vec<SearchResult> = Vec::new();
    for entry in it: entries
        invariant
            it.seq() == all,
            pred == (|e: YtDlpEntryView| is_playable(e)),
            f == (|e: YtDlpEntryView| result_of_entry(e)),
            result_views(results@) == entry_views(all.take(it.index())).filter(pred).map_values(f),
    {
        let ghost before = all.take(it.index());
        let ghost ev = entry@;
        assert(all.take(it.index() + 1) =~= before.push(entry));
        assert(entry_views(before.push(entry)) =~= entry_views(before).push(ev));
        proof {
            entry_views(before).lemma_filter_push(ev, pred);
        }
        if is_playable_entry(&entry) {
            let r = SearchResult::from(entry);
            proof {
                entry_views(before).filter(pred).lemma_push_map_commute(f, ev);
            }
            let ghost old_results = results@;
            results.push(r);
            assert(result_views(results@) =~= result_views(old_results).push(r@));
        }
    }
    assert(all.take(all.len() as int) =~= all);
    results
}

/// The playable entries, in order.
pub open spec fn playable_entries(v: Seq<YtDlpEntryView>) -> Seq<YtDlpEntryView> {
    v.filter(|e: YtDlpEntryView| is_playable(e))
}

/// Filtering keeps exactly the playable entries: every result comes from a
/// playable entry of the input, in order, every playable entry gives a
/// result, there are never more results than entries, and each result's
/// thumbnail URL is built from its own video id.
pub proof fn lemma_playable_results(v: Seq<YtDlpEntryView>)
    ensures
        playable_results(v) == playable_entries(v).map_values(
            |e: YtDlpEntryView| result_of_entry(e),
        ),
        playable_results(v).len() <= v.len(),
        forall|i: int|
            0 <= i < playable_entries(v).len() ==> is_playable(#[trigger] playable_entries(v)[i])
                && v.contains(playable_entries(v)[i]),
        forall|j: int| 0 <= j < v.len() && is_playable(#[trigger] v[j]) ==> playable_entries(v).contains(v[j]),
        forall|i: int|
            0 <= i < playable_results(v).len() ==> #[trigger] playable_results(v)[i].thumbnail_url
                == thumbnail_url_for(playable_results(v)[i].id),
{
    let pred = |e: YtDlpEntryView| is_playable(e);
    assert(playable_entries(v) == v.filter(pred));
    v.lemma_filter_len(pred);
    assert forall|i: int| 0 <= i < playable_entries(v).len() implies is_playable(
        #[trigger] playable_entries(v)[i],
    ) && v.contains(playable_entries(v)[i]) by {
        v.lemma_filter_pred(pred, i);
        assert(v.filter(pred).contains(v.filter(pred)[i]));
        v.lemma_filter_contains_rev(pred, v.filter(pred)[i]);
    }
    assert forall|j: int| 0 <= j < v.len() && is_playable(#[trigger] v[j]) implies playable_entries(
        v,
    ).contains(v[j]) by {
        v.lemma_filter_contains(pred, j);
    }
}

/// The search spec yt-dlp takes: `ytsearch<limit>:<query>`.
pub open spec fn search_spec_text(query: Seq<char>, limit: u32) -> Seq<char> {
    "ytsearch"@ + decimal(limit as nat) + ":"@ + query
}

/// yt-dlp's arguments for a search of up to `limit` results: flat output
/// (metadata only, no formats), one JSON object per line.
pub open spec fn search_args_text(query: Seq<char>, limit: u32) -> Seq<Seq<char>> {
    seq!["--flat-playlist"@, "-j"@, search_spec_text(query, limit)]
}

/// The watch page of a video.
pub open spec fn watch_url_text(video_id: Seq<char>) -> Seq<char> {
    "https://www.youtube.com/watch?v="@ + video_id
}

/// yt-dlp's arguments to print the direct URL of a video's best audio stream.
pub open spec fn resolve_audio_args_text(video_id: Seq<char>) -> Seq<Seq<char>> {
    seq!["-f"@, "bestaudio"@, "-g"@, watch_url_text(video_id)]
}

fn owned(s: &str) -> (r: String)
    ensures
        r@ == s@,
{
    s.to_owned()
}

/// The arguments to run yt-dlp with for a search.
pub fn search_args(query: &str, limit: u32) -> (args: Vec<String>)
    ensures
        string_views(args@) == search_args_text(query@, limit),
{
    let mut spec = String::new();
    spec.append("ytsearch");
    push_decimal(&mut spec, limit);
    spec.append(":");
    spec.append(query);
    let mut args: Vec<String> = Vec::new();
    args.push(owned("--flat-playlist"));
    args.push(owned("-j"));
    args.push(spec);
    assert(string_views(args@) =~= search_args_text(query@, limit));
    args
}

/// The arguments to run yt-dlp with to resolve a video's audio stream.
pub fn resolve_audio_args(video_id: &str) -> (args: Vec<String>)
    ensures
        string_views(args@) == resolve_audio_args_text(video_id@),
{
    let mut url = String::new();
    url.append("https://www.youtube.com/watch?v=");
    url.append(video_id);
    let mut args: Vec<String> = Vec::new();
    args.push(owned("-f"));
    args.push(owned("bestaudio"));
    args.push(owned("-g"));
    args.push(url);
    assert(string_views(args@) =~= resolve_audio_args_text(video_id@));
    args
}

/// The lines of a search's output that may hold an entry: those that are not
/// blank, in order. Each is then parsed as one JSON entry.
pub fn search_output_lines(output: &str) -> (v: Vec<String>)
    ensures
        string_views(v@) == lines(output@).filter(|l: Seq<char>| !is_blank(l)),
{
    non_blank_lines(output)
}

/// How a finished yt-dlp run is read: on success its stdout, decoded as
/// UTF-8 with invalid bytes replaced; otherwise an execution error that
/// carries its stderr, decoded the same way and trimmed.
pub fn yt_dlp_result(success: bool, stdout: &[u8], stderr: &[u8]) -> (r: Result<String, CadenceError>)
    ensures
        success ==> (r matches Ok(out) && out@ == utf8_lossy(stdout@)),
        !success ==> (r matches Err(CadenceError::YtDlpExecution { message }) && message@ == trim(
            utf8_lossy(stderr@),
        )),
{
    if success {
        Ok(from_utf8_lossy(stdout))
    } else {
        let text = from_utf8_lossy(stderr);
        Err(CadenceError::YtDlpExecution { message: trim_str(text.as_str()) })
    }
}

/// Whether yt-dlp's error text says that YouTube wants a sign-in.
pub open spec fn asks_for_sign_in(message: Seq<char>) -> bool {
    contains_seq(lowercase(message), "sign in"@)
}

/// `r` is `err` as resolving `video_id` reports it: an execution failure that
/// asks for a sign-in becomes `YtDlpAuthRequired` for the video; every other
/// error passes unchanged.
pub open spec fn annotated(err: CadenceError, video_id: Seq<char>, r: CadenceError) -> bool {
    match err {
        CadenceError::YtDlpExecution { message } => if asks_for_sign_in(message@) {
            r matches CadenceError::YtDlpAuthRequired { video_id: v } && v@ == video_id
        } else {
            r == err
        },
        _ => r == err,
    }
}

/// Whether yt-dlp's error text, already lower-cased, says that YouTube wants
/// a sign-in.
pub fn is_sign_in_message(lowered: &str) -> (b: bool)
    ensures
        b == contains_seq(lowered@, "sign in"@),
{
    proof {
        reveal_strlit("sign in");
    }
    contains_str(lowered, "sign in")
}

/// Names the one failure common enough to get its own message: a video that
/// needs a sign-in (age or region restrictions).
pub fn annotate_execution_failure(err: CadenceError, video_id: &str) -> (r: CadenceError)
    ensures
        annotated(err, video_id@, r),
{
    let sign_in = match &err {
        CadenceError::YtDlpExecution { message } => {
            let lower = to_lowercase(message.as_str());
            is_sign_in_message(lower.as_str())
        },
        _ => false,
    };
    if sign_in {
        CadenceError::YtDlpAuthRequired { video_id: owned(video_id) }
    } else {
        err
    }
}

/// The stream URL in yt-dlp's output: its first line, trimmed.
pub open spec fn audio_url_text(output: Seq<char>) -> Seq<char> {
    trim(first_line(output))
}

/// Resolves a video's audio from the outcome of running yt-dlp with
/// `resolve_audio_args(video_id)`: a failed run is reported as
/// `annotate_execution_failure` says; an empty first line means no audio
/// stream; otherwise the trimmed first line is the short-lived stream URL,
/// which callers should not keep.
pub fn resolve_audio(video_id: &str, run: Result<String, CadenceError>) -> (r: Result<
    String,
    CadenceError,
>)
    ensures
        match run {
            Err(e) => r matches Err(re) && annotated(e, video_id@, re),
            Ok(out) => if audio_url_text(out@).len() == 0 {
                r matches Err(CadenceError::YtDlpNoAudioStream { video_id: v }) && v@ == video_id@
            } else {
                r matches Ok(url) && url@ == audio_url_text(out@)
            },
        },
{
    match run {
        Err(e) => Err(annotate_execution_failure(e, video_id)),
        Ok(output) => {
            let url = first_line_trimmed(output.as_str());
            if url.as_str().is_empty() {
                Err(CadenceError::YtDlpNoAudioStream { video_id: owned(video_id) })
            } else {
                Ok(url)
            }
        },
    }
}

/// A resolved stream URL is a single line with no surrounding whitespace,
/// never empty, taken from yt-dlp's output.
pub proof fn lemma_audio_url_is_clean(output: Seq<char>)
    ensures
        audio_url_text(output).len() > 0 ==> !crate::text::is_white_space(audio_url_text(output)[0])
            && !crate::text::is_white_space(audio_url_text(output).last()),
        forall|k: int|
            0 <= k < audio_url_text(output).len() ==> #[trigger] audio_url_text(output)[k] != '\n',
{
    let line = first_line(output);
    crate::text::lemma_trim_is_clean(line);
    crate::text::lemma_first_line_is_one_line(output);
    let t = trim(line);
    let i = choose|i: int| 0 <= i && i + t.len() <= line.len() && #[trigger] line.subrange(i, i + t.len()) == t;
    assert forall|k: int| 0 <= k < t.len() implies #[trigger] t[k] != '\n' by {
        assert(t[k] == line[i + k]);
    }
}

/// The search result made from an entry keeps the entry's own id, title and
/// artist, whatever else the entry holds; its duration is the entry's, or 0
/// when the entry has none; its thumbnail is YouTube's `hqdefault` image of
/// the entry's video id.
pub proof fn lemma_result_keeps_entry_fields(e: YtDlpEntryView)
    ensures
        result_of_entry(e).id == e.id,
        result_of_entry(e).title == e.title,
        result_of_entry(e).artist == e.artist,
        e.duration matches Some(d) ==> result_of_entry(e).duration_seconds == d,
        e.duration is None ==> result_of_entry(e).duration_seconds == 0,
        result_of_entry(e).thumbnail_url == "https://i.ytimg.com/vi/"@ + e.id + "/hqdefault.jpg"@,
{
}

/// An entry is playable exactly when its extractor key is the seven
/// characters `Youtube`.
pub proof fn lemma_playable_means_youtube_key(e: YtDlpEntryView)
    ensures
        is_playable(e) <==> e.ie_key == seq!['Y', 'o', 'u', 't', 'u', 'b', 'e'],
{
    reveal_strlit("Youtube");
    assert("Youtube"@ =~= seq!['Y', 'o', 'u', 't', 'u', 'b', 'e']);
}

/// `u` is the first line of `out` without its surrounding whitespace, said
/// character by character: `u` sits in `out` before the first line feed;
/// between the start of `out` and `u`, and between `u` and that line feed (or
/// the end), there is only whitespace; and `u` neither starts nor ends with
/// whitespace.
pub open spec fn is_first_line_without_surrounding_space(out: Seq<char>, u: Seq<char>) -> bool {
    exists|k: int, i: int|
        #![trigger out.subrange(i, i + u.len()), out.subrange(0, k)]
        0 <= i && i + u.len() <= k <= out.len() && (k == out.len() || out[k] == '\n') && (forall|
            j: int,
        | 0 <= j < k ==> #[trigger] out[j] != '\n') && out.subrange(i, i + u.len()) == u
            && out.subrange(0, k) == first_line(out) && (forall|j: int|
            0 <= j < i ==> crate::text::is_white_space(#[trigger] out[j])) && (forall|j: int|
            i + u.len() <= j < k ==> crate::text::is_white_space(#[trigger] out[j])) && (u.len() > 0
            ==> !crate::text::is_white_space(u[0]) && !crate::text::is_white_space(u.last()))
}

/// Whether the first line of `out` is all whitespace.
pub open spec fn first_line_is_blank(out: Seq<char>) -> bool {
    forall|j: int| 0 <= j < first_line(out).len() ==> crate::text::is_white_space(#[trigger] out[j])
}

/// The resolved URL is yt-dlp's first output line with only its surrounding
/// whitespace removed, whatever characters the URL holds; so it is empty (no
/// audio stream) exactly when the first line is blank.
pub proof fn lemma_audio_url_is_first_line_trimmed(out: Seq<char>)
    ensures
        is_first_line_without_surrounding_space(out, audio_url_text(out)),
        audio_url_text(out).len() == 0 <==> first_line_is_blank(out),
{
    let line = first_line(out);
    let u = audio_url_text(out);
    crate::text::lemma_first_line_exact(out);
    crate::text::lemma_trim_exact(line);
    let k = line.len() as int;
    let i = choose|i: int|
        #![trigger line.subrange(i, i + u.len())]
        0 <= i && i + u.len() <= line.len() && line.subrange(i, i + u.len()) == u && (forall|j: int|
            0 <= j < i ==> crate::text::is_white_space(#[trigger] line[j])) && (forall|j: int|
            i + u.len() <= j < line.len() ==> crate::text::is_white_space(#[trigger] line[j])) && (
        u.len() > 0 ==> !crate::text::is_white_space(u[0]) && !crate::text::is_white_space(u.last()));
    assert(out.subrange(i, i + u.len()) =~= u);
    assert(out.subrange(0, k) =~= line);
    assert forall|j: int| 0 <= j < i implies crate::text::is_white_space(#[trigger] out[j]) by {
        assert(out[j] == line[j]);
    }
    assert forall|j: int| i + u.len() <= j < k implies crate::text::is_white_space(
        #[trigger] out[j],
    ) by {
        assert(out[j] == line[j]);
    }
    assert forall|j: int| 0 <= j < first_line(out).len() implies (#[trigger] out[j]) == line[j] by {
    }
}

/// Whether `text` holds the seven characters `sign in` somewhere.
pub open spec fn holds_sign_in(text: Seq<char>) -> bool {
    exists|i: int|
        0 <= i && i + 7 <= text.len() && #[trigger] text.subrange(i, i + 7) == seq![
            's',
            'i',
            'g',
            'n',
            ' ',
            'i',
            'n',
        ]
}

/// A failed run is named a sign-in failure exactly when `sign in` occurs
/// somewhere in the lower-cased whole of its error text, on whichever line;
/// otherwise it passes unchanged; a sign-in failure names the video that was
/// being resolved.
pub proof fn lemma_sign_in_anywhere_in_message(
    message: String,
    video_id: Seq<char>,
    r: CadenceError,
)
    requires
        annotated(CadenceError::YtDlpExecution { message }, video_id, r),
    ensures
        asks_for_sign_in(message@) == holds_sign_in(lowercase(message@)),
        (r is YtDlpAuthRequired) == holds_sign_in(lowercase(message@)),
        r matches CadenceError::YtDlpAuthRequired { video_id: v } ==> v@ == video_id,
        !(r is YtDlpAuthRequired) ==> (r == (CadenceError::YtDlpExecution { message })),
{
    reveal_strlit("sign in");
    assert("sign in"@ =~= seq!['s', 'i', 'g', 'n', ' ', 'i', 'n']);
}

/// Every error other than an execution failure passes annotation unchanged.
pub proof fn lemma_annotation_keeps_other_errors(err: CadenceError, video_id: Seq<char>, r: CadenceError)
    requires
        annotated(err, video_id, r),
        !(err is YtDlpExecution),
    ensures
        r == err,
{
}

} // verus!
