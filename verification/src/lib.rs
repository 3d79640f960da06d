//! Client-side session engine for a streaming speech-recognition service.
//!
//! The library contains the protocol logic of a realtime transcription
//! session: the wire codec for control and event frames, the handshake
//! protocol, the audio sender with its sequence counter, the event
//! dispatcher, and the session orchestrator, all with verified contracts.
//! Network transport is supplied by the embedding application; the engine
//! here is exercised against scripted transports and audio sources.

use vstd::prelude::*;

pub mod batch;
pub mod batch_models;
pub mod codec;
pub mod config;
pub mod engine;
pub mod handshake;
pub mod handlers;
pub mod models;
pub mod scripted;
pub mod session;
pub mod wire;

verus! {

/// Number of bytes read from the audio source per chunk, at most.
pub const AUDIO_CHUNK_SIZE: usize = 8192;

/// Bound on consecutive non-matching frames tolerated while waiting for
/// the server's acknowledgement during the handshake.
pub const HANDSHAKE_RETRY_BOUND: u64 = 5;

/// How many attempts a transient send failure is given before it becomes
/// fatal.
pub const SEND_RETRY_LIMIT: u64 = 5;

/// Fixed delay, in milliseconds, between send attempts.
pub const SEND_RETRY_DELAY_MS: u64 = 100;

} // verus!
