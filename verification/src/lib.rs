//! A session-style clip playback and recording engine.
//!
//! The engine produces audio and MIDI material per callback through a
//! composable supplier pipeline, keeps clip play states synchronized with a
//! host transport, and exchanges commands and events between a controller
//! context and a real-time context over bounded, non-blocking queues.

use vstd::prelude::*;

pub mod activation;
pub mod api;
pub mod clip;
pub mod column;
pub mod compartment;
pub mod looper;
pub mod mapping;
pub mod raw_midi;
pub mod recorder;
pub mod slot;
pub mod source_util;
pub mod supplier;
pub mod timeline;
pub mod virtual_control;

verus! {

/// Frames per fade ramp at the loop splice point (about 10 ms at 48 kHz).
pub const FADE_LENGTH: usize = 480;

} // verus!
