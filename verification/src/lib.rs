//! Timing, buffering and recovery core of a single-stream audio player.
//!
//! Times are unsigned nanosecond counts. A point in time is a reading of a
//! monotonic [`clock::Clock`]; a span is the distance between two readings.
pub mod error;

pub mod clock;
pub mod playback_state;
pub mod recovery;
pub mod device;
pub mod delay_line;
pub mod reverb;
pub mod visualizer;
pub mod preload;
pub mod equalizer;
pub mod source;
pub mod validation;
pub mod chain;
