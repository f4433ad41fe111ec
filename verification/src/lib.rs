//! Playback engine of a terminal music player.
//!
//! The engine models the transport state of a single audio track: which
//! track is loaded, how long it is, how many seconds of it have played,
//! and whether playback is paused.  The decisions the engine makes (what
//! a `play`, `play_pause`, `skip` or progress tick does to that state)
//! are verified here; the surrounding process (audio device, decoding,
//! worker threads) drives the engine from outside and performs each
//! decision on the real audio sink.

pub mod duration;
pub mod engine;
pub mod errors;
pub mod track;
