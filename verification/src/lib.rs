//! Core logic of a hotkey-driven dictation utility.
//!
//! The crate covers the capture-to-text pipeline: the state machine that
//! turns raw hotkey events into start/stop decisions, the recording session
//! that accumulates microphone samples, the sample-rate converter that brings
//! a recording to the rate the speech recognizer expects, and the small
//! decision functions around model resolution, transcript assembly and
//! output dispatch. Samples are fixed-point amplitudes (`i32`); the process
//! boundary converts hardware frames to and from that representation.

pub mod arith;
pub mod audio;
pub mod clipboard;
pub mod config;
pub mod controller;
pub mod errors;
pub mod hotkey;
pub mod models;
pub mod permissions;
pub mod resample;
pub mod session;
pub mod sounds;
pub mod system_info;
pub mod transcription;
