//! A verified model of a minimal double-buffered GPU frame-rendering
//! pipeline: adapter selection, surface binding, per-frame command
//! recording with explicit resource-state transitions, and CPU/GPU
//! synchronization through a monotonic fence.
//!
//! The platform graphics API and the windowing system are outside
//! collaborators; the library models their observable behaviour with
//! plain values (buffer indices, fence counters, command sequences,
//! byte buffers) so that the coordination logic — the part where a
//! mistake corrupts a frame or races the GPU — is proved correct.

pub mod device;
pub mod error;
pub mod geometry;
pub mod pipeline;
pub mod recorder;
pub mod sample;
pub mod surface;
pub mod sync;
