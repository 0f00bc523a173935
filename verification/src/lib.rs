//! Verified core of a desktop screencast capture pipeline.
//!
//! The library models the zero-copy video-frame acquisition pipeline: format
//! and modifier negotiation with the stream producer, validation and
//! attribute construction for importing cross-process GPU buffers, channel
//! fix-up of delivered frames, the capture worker's state machine with its
//! latest-wins buffer draining, and the bounded frame channel toward the
//! consumer.  Everything that must touch the platform (the producer's event
//! loop, the graphics context, the extension loader) lives outside and hands
//! this library plain values.

pub mod channel;
pub mod context;
pub mod descriptor;
pub mod format;
pub mod frame;
pub mod gl;
pub mod negotiate;
pub mod worker;
