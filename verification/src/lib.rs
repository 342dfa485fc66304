//! An audio-transcription orchestration engine.
//!
//! Long audio is split into bounded, slightly overlapping chunks; each chunk
//! is transcribed by a remote speech API driven by the caller; transient
//! remote failures are retried with exponential backoff up to a ceiling; the
//! per-chunk transcripts are stitched back into one text. The engine itself
//! performs no I/O: it is a state machine that tells its driver which file to
//! probe and which chunk to submit next, and consumes the outcomes.

pub mod chunker;
pub mod client;
pub mod engine;
pub mod errors;
pub mod model;
pub mod stitcher;
