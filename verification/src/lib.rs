//! A volume-ducking controller for a desktop audio mixer.
//!
//! From one snapshot of the audio server's playback streams the controller
//! resolves the primary stream and decides its volume: lowered while any
//! other stream can be heard, full otherwise (`engine`). Around that decision
//! it runs a polling cycle of acquiring, deciding, setting and waiting
//! (`cycle`). The controller performs no I/O itself: its caller queries the
//! audio server and applies the volume.

pub mod cycle;
pub mod cycle_laws;
pub mod engine;
pub mod engine_laws;
pub mod stream;
mod text;
