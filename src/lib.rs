//! Playback session control for a terminal audio player.
//!
//! The library decides; the program around it performs. Every operation on
//! the audio output, the file system or the terminal is described by an
//! [`session::Action`] that the caller carries out, and what the caller
//! observes comes back as plain values.

pub mod cli;
pub mod display;
pub mod format;
pub mod queue;
pub mod session;
pub mod transport;
