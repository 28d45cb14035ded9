# cadence

Cadence is a lightweight desktop music launcher for focus sessions: search
YouTube, press Enter, keep working. Search and audio lookup go through
`yt-dlp`; playback goes through `mpv`, controlled over its JSON IPC socket.

## Layout

- `src/` — the verified library (Verus). Every function carries a contract.
  - `error.rs` — `CadenceError`, its kinds, and the message shown to the user.
  - `models.rs` — `SearchResult`, `PlaybackStatus`, `HealthStatus`.
  - `text.rs` — trimming, line splitting, substring search, decimal output.
  - `yt_dlp.rs` — yt-dlp command lines, reading its output, playable results,
    sign-in classification, audio URL extraction.
  - `mpv.rs` — IPC commands and their JSON text, reading replies, the socket
    connection retry schedule.
  - `player.rs` — the loaded track and the steps of playing and stopping.
- `app/` — the Tauri application around the library: process spawning,
  sockets, timeouts, floating-point values, serde copies of the models.
- `tests/` — tests of the library.
