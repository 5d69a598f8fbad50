//! Songs, albums and artists as the client keeps them.

use vstd::prelude::*;

verus! {

/// Playback state reported by the server.
#[derive(Debug, Clone, Copy, PartialEq, Eq, Structural)]
pub enum PlayState {
    Stopped,
    Playing,
    Paused,
}

/// What the client knows of one song.
///
/// Durations are in milliseconds.
#[derive(Debug, Clone)]
pub struct SongInfo {
    pub title: String,
    pub artist: String,
    pub album: String,
    pub file_path: String,
    pub format: Option<String>,
    pub play_state: Option<PlayState>,
    pub elapsed_ms: Option<u64>,
    pub duration_ms: Option<u64>,
    pub disc_number: u64,
    pub track_number: u64,
}

} // verus!
