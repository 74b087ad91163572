//! Asynchronous command/event bridge and spectrum-frame pipeline for a live
//! signal receiver.
//!
//! The receiver itself is an opaque native service: commands are issued
//! through single-shot callbacks and events arrive through a push
//! subscription.  This crate holds the verified core of the client: the
//! completion bridge that turns each one-shot callback into a value obtained
//! exactly once, the event channel that turns the push subscription into an
//! ordered pollable sequence, the frame transport that hands spectrum frames
//! between the fetch activity and the presentation loop, and the spectral
//! post-processing (recursive averaging and per-pixel decimation) applied to
//! each frame before display.

pub mod channel;
pub mod common;
pub mod completion;
pub mod error;
pub mod fftaverager;
pub mod receiver;
pub mod state;
pub mod transport;
pub mod vfo;
pub mod wire;
