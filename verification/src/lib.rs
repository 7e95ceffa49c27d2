//! Batch tempo adjustment for mono, 16 kHz, 16-bit PCM WAV recordings.
//!
//! The library validates a container's format, normalizes its samples,
//! drives an external time-stretch engine, quantizes the result and encodes
//! it again, and plans a recursive batch walk whose per-file failures stay
//! isolated. Container parsing and emission are delegated to hound behind
//! trusted wrappers; the stretch transform itself is an outside collaborator
//! reached through the [`stretch::Stretcher`] capability.

pub mod batch;
pub mod codec;
pub mod format;
pub mod pipeline;
pub mod sample;
pub mod stretch;
pub mod tempo;
