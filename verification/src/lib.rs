//! The core of a local music-library player: the track catalog, the
//! playback session, which derives the position within the track from
//! wall-clock instants instead of polling the audio device, and the rules
//! that pick audio files out of a folder listing.
//!
//! The library performs no I/O. Whoever drives it owns the audio output and
//! the clock: each operation takes the current instant and what the output
//! reported, updates the session, and answers with the command that the
//! output must carry out.

pub mod models;
pub mod session;
pub mod audio;
pub mod timeline;
pub mod indexing;


