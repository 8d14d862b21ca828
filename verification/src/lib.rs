//! Verified core of a voice-capture-to-transcription pipeline.
//!
//! Raw audio enters either as pushed PCM byte chunks or as frames pulled from
//! a capture device, is normalized to mono fixed-point samples, accumulated in
//! a segment buffer, and watched by a voice-activity heuristic. A trigger
//! policy decides when the in-progress utterance is complete; a background
//! worker then atomically snapshots and clears the buffer, hands the samples
//! to a transcription engine, and publishes the outcome as named events.
//!
//! Everything that computes on plain values lives here with a contract. The
//! host application supplies the parts this library cannot hold: the real
//! capture device, the clock, the model loader and inference call, threads,
//! and event delivery.

pub mod buffer;
pub mod config;
pub mod engine;
pub mod errors;
pub mod events;
pub mod pipeline;
pub mod respond;
pub mod sample;
pub mod trigger;
pub mod vad;
