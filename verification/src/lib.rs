//! Core of a gapless, seekable audio playback engine.
//!
//! A decoder worker fills a bounded FIFO of interleaved stereo PCM frames,
//! a pull-mode audio callback drains it, applies gain and raises end-of-media
//! and backpressure signals, and a small state machine ties the transport
//! operations (load, play, pause, seek, clear) together.  Everything that
//! decides — the FIFO, the shared counters, the state machine, the callback
//! arithmetic and the per-packet decode step — lives here with contracts;
//! the device, demuxer and codec calls are driven from outside through the
//! command and signal channels.

pub mod api;
pub mod callback;
pub mod channel;
pub mod decoding_loop;
pub mod engine;
pub mod enums;
pub mod fifo;
pub mod listener;
pub mod singletons;
