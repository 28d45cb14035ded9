//! Cadence: a music launcher for focus sessions. Search YouTube through
//! yt-dlp, pick a result, and listen through mpv.
//!
//! This crate holds the launcher's decisions, each with its contract: how
//! searches and audio lookups are asked of yt-dlp and how its output is read
//! (`yt_dlp`), how commands are written to mpv's IPC socket and its replies
//! read (`mpv`), which track is playing and what state is reported
//! (`player`), and what the user is told when something fails (`error`).
//! Running the processes and talking over the socket is left to the caller.
pub mod error;
pub mod models;
pub mod mpv;
pub mod player;
pub mod text;
pub mod yt_dlp;

pub use error::{CadenceError, ErrorKind};
pub use models::{HealthStatus, PlaybackStatus, SearchResult, health, playback_status};
pub use player::{PlayAction, PlayProgress, PlayerService};
pub use yt_dlp::{YtDlpEntry, annotate_execution_failure, filter_playable, resolve_audio};
