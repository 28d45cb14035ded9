//! The one error type every player and search operation returns, and the short
//! message that is shown to the user for each kind of failure.
use vstd::prelude::*;

verus! {

/// `std::io::Error`, carried through as the cause of a failed spawn or read.
#[verifier::external_type_specification]
#[verifier::external_body]
pub struct ExIoError(std::io::Error);

/// `std::path::PathBuf`, carried through as the socket path of a timeout.
#[verifier::external_type_specification]
#[verifier::external_body]
pub struct ExPathBuf(std::path::PathBuf);

/// `serde_json::Error`, carried through as the cause of a failed (de)serialization.
#[verifier::external_type_specification]
#[verifier::external_body]
pub struct ExJsonError(serde_json::Error);

/// Every way a player or search operation can fail.
#[derive(Debug)]
pub enum CadenceError {
    /// mpv could not be started.
    MpvSpawn(std::io::Error),
    /// mpv's IPC socket did not appear in time.
    MpvSocketTimeout(std::path::PathBuf),
    /// mpv closed the IPC connection.
    MpvConnectionClosed,
    /// Reading from or writing to mpv failed.
    MpvIo(std::io::Error),
    /// An IPC message could not be encoded or decoded.
    MpvSerialize(serde_json::Error),
    /// mpv answered a command with an error.
    MpvCommand { command: String, message: String },
    /// yt-dlp could not be started.
    YtDlpSpawn(std::io::Error),
    /// Waiting for yt-dlp's output failed.
    YtDlpIo(std::io::Error),
    /// yt-dlp did not finish in time.
    YtDlpTimeout,
    /// yt-dlp exited unsuccessfully; `message` is its trimmed stderr.
    YtDlpExecution { message: String },
    /// A line of yt-dlp's output was not the expected JSON.
    YtDlpParse(serde_json::Error),
    /// yt-dlp printed no stream URL for the video.
    YtDlpNoAudioStream { video_id: String },
    /// YouTube asked for a sign-in before it would serve the video.
    YtDlpAuthRequired { video_id: String },
}

/// The kind of a `CadenceError`, without the details it carries.
#[derive(Debug, Clone, Copy, PartialEq, Eq, Structural)]
pub enum ErrorKind {
    MpvSpawn,
    MpvSocketTimeout,
    MpvConnectionClosed,
    MpvIo,
    MpvSerialize,
    MpvCommand,
    YtDlpSpawn,
    YtDlpIo,
    YtDlpTimeout,
    YtDlpExecution,
    YtDlpParse,
    YtDlpNoAudioStream,
    YtDlpAuthRequired,
}

/// The kind of `e`.
pub open spec fn kind_of(e: CadenceError) -> ErrorKind {
    match e {
        CadenceError::MpvSpawn(_) => ErrorKind::MpvSpawn,
        CadenceError::MpvSocketTimeout(_) => ErrorKind::MpvSocketTimeout,
        CadenceError::MpvConnectionClosed => ErrorKind::MpvConnectionClosed,
        CadenceError::MpvIo(_) => ErrorKind::MpvIo,
        CadenceError::MpvSerialize(_) => ErrorKind::MpvSerialize,
        CadenceError::MpvCommand { .. } => ErrorKind::MpvCommand,
        CadenceError::YtDlpSpawn(_) => ErrorKind::YtDlpSpawn,
        CadenceError::YtDlpIo(_) => ErrorKind::YtDlpIo,
        CadenceError::YtDlpTimeout => ErrorKind::YtDlpTimeout,
        CadenceError::YtDlpExecution { .. } => ErrorKind::YtDlpExecution,
        CadenceError::YtDlpParse(_) => ErrorKind::YtDlpParse,
        CadenceError::YtDlpNoAudioStream { .. } => ErrorKind::YtDlpNoAudioStream,
        CadenceError::YtDlpAuthRequired { .. } => ErrorKind::YtDlpAuthRequired,
    }
}

/// The message shown to the user for each kind of failure.
pub open spec fn kind_message(k: ErrorKind) -> Seq<char> {
    match k {
        ErrorKind::YtDlpAuthRequired => "This video requires YouTube sign-in or has restrictions. Try another result."@,
        ErrorKind::YtDlpNoAudioStream => "Couldn't find an audio stream for this track. Try another result."@,
        ErrorKind::YtDlpExecution => "Couldn't play this track. Try another result."@,
        ErrorKind::YtDlpTimeout => "yt-dlp took too long to respond. Check your connection and try again."@,
        ErrorKind::YtDlpSpawn | ErrorKind::YtDlpIo => "yt-dlp isn't available. Make sure it's installed."@,
        ErrorKind::YtDlpParse => "Got an unexpected response while searching."@,
        ErrorKind::MpvSpawn | ErrorKind::MpvIo | ErrorKind::MpvConnectionClosed
        | ErrorKind::MpvSocketTimeout => "Lost connection to the audio player. Try restarting Cadence."@,
        ErrorKind::MpvSerialize | ErrorKind::MpvCommand => "The audio player rejected that action."@,
    }
}

/// The message shown to the user for `e`.
pub open spec fn user_message_of(e: CadenceError) -> Seq<char> {
    kind_message(kind_of(e))
}

impl ErrorKind {
    /// The message shown to the user for this kind of failure.
    pub fn user_message(self) -> (m: &'static str)
        ensures
            m@ == kind_message(self),
    {
        match self {
            ErrorKind::YtDlpAuthRequired => "This video requires YouTube sign-in or has restrictions. Try another result.",
            ErrorKind::YtDlpNoAudioStream => "Couldn't find an audio stream for this track. Try another result.",
            ErrorKind::YtDlpExecution => "Couldn't play this track. Try another result.",
            ErrorKind::YtDlpTimeout => "yt-dlp took too long to respond. Check your connection and try again.",
            ErrorKind::YtDlpSpawn | ErrorKind::YtDlpIo => "yt-dlp isn't available. Make sure it's installed.",
            ErrorKind::YtDlpParse => "Got an unexpected response while searching.",
            ErrorKind::MpvSpawn | ErrorKind::MpvIo | ErrorKind::MpvConnectionClosed
            | ErrorKind::MpvSocketTimeout => "Lost connection to the audio player. Try restarting Cadence.",
            ErrorKind::MpvSerialize | ErrorKind::MpvCommand => "The audio player rejected that action.",
        }
    }
}

impl CadenceError {
    /// The kind of this error.
    pub fn kind(&self) -> (k: ErrorKind)
        ensures
            k == kind_of(*self),
    {
        match self {
            CadenceError::MpvSpawn(_) => ErrorKind::MpvSpawn,
            CadenceError::MpvSocketTimeout(_) => ErrorKind::MpvSocketTimeout,
            CadenceError::MpvConnectionClosed => ErrorKind::MpvConnectionClosed,
            CadenceError::MpvIo(_) => ErrorKind::MpvIo,
            CadenceError::MpvSerialize(_) => ErrorKind::MpvSerialize,
            CadenceError::MpvCommand { .. } => ErrorKind::MpvCommand,
            CadenceError::YtDlpSpawn(_) => ErrorKind::YtDlpSpawn,
            CadenceError::YtDlpIo(_) => ErrorKind::YtDlpIo,
            CadenceError::YtDlpTimeout => ErrorKind::YtDlpTimeout,
            CadenceError::YtDlpExecution { .. } => ErrorKind::YtDlpExecution,
            CadenceError::YtDlpParse(_) => ErrorKind::YtDlpParse,
            CadenceError::YtDlpNoAudioStream { .. } => ErrorKind::YtDlpNoAudioStream,
            CadenceError::YtDlpAuthRequired { .. } => ErrorKind::YtDlpAuthRequired,
        }
    }

    /// A message safe to show the user: no raw process output, socket paths
    /// or protocol internals, just what happened and whether trying again
    /// makes sense.
    pub fn user_message(&self) -> (m: &'static str)
        ensures
            m@ == user_message_of(*self),
    {
        self.kind().user_message()
    }
}

/// The user message depends on the kind of failure alone: two errors of the
/// same kind show the same message, whatever stderr, path or command they
/// carry.
pub proof fn lemma_user_message_hides_details(a: CadenceError, b: CadenceError)
    requires
        kind_of(a) == kind_of(b),
    ensures
        user_message_of(a) == user_message_of(b),
{
}

/// Every failure has a message to show, and none of them is empty.
pub proof fn lemma_user_message_nonempty(e: CadenceError)
    ensures
        user_message_of(e).len() > 0,
{
    reveal_strlit("This video requires YouTube sign-in or has restrictions. Try another result.");
    reveal_strlit("Couldn't find an audio stream for this track. Try another result.");
    reveal_strlit("Couldn't play this track. Try another result.");
    reveal_strlit("yt-dlp took too long to respond. Check your connection and try again.");
    reveal_strlit("yt-dlp isn't available. Make sure it's installed.");
    reveal_strlit("Got an unexpected response while searching.");
    reveal_strlit("Lost connection to the audio player. Try restarting Cadence.");
    reveal_strlit("The audio player rejected that action.");
}

} // verus!
