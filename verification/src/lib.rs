//! Bookkeeping core of a fixed-frequency sine tone generator.
//!
//! An audio stream asks for its samples buffer by buffer, interleaved by
//! channel. This crate decides, exactly and in integers, which phase of the
//! tone each slot of such a buffer sounds: it counts the frames, keeps the
//! phase base of the current frame, and walks the buffer frame by frame. The
//! caller turns a phase into a sample of whatever representation its
//! device wants.

pub mod buffer;
pub mod generator;
pub mod laws;
pub mod phase;

pub use buffer::{count_frames, write_data};
pub use generator::{GeneratorState, ToneGenerator};
pub use phase::{Phase, FUNDAMENTAL_FREQUENCY};
