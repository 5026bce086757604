//! The decisions of a command-line front end for the rustpotter wakeword
//! spotter, verified: choosing an audio input configuration and buffer size,
//! cutting sample streams into detector frames, reporting detections, naming
//! and timing outputs, and locating the bundled native capture library.
//!
//! Audio capture, WAV files and the detector itself stay with the programs that
//! use this library; they hand it plain values and act on what it returns.
pub mod cli;
pub mod frames;
pub mod pv_recorder_utils;
pub mod text;
