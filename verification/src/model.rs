//! The boundary values of one transcription run.
//!
//! A run consumes one `TranscribeConfig` and delivers exactly one
//! `TranscribeResult`. The result upholds one invariant the caller relies on:
//! `text` is present if and only if the run succeeded, and `error` is present
//! if and only if it failed. Durations are carried as whole milliseconds.

use vstd::prelude::*;

verus! {

/// Everything one transcription run needs: the audio file, the credentials,
/// and the optional hints passed through to the remote API.
#[derive(Clone, Debug)]
pub struct TranscribeConfig {
    /// Path of the local audio file to transcribe.
    pub file_path: String,
    /// Credential for the remote speech API; required, never logged.
    pub api_key: String,
    /// Language hint (ISO code); `None` or empty means auto-detect.
    pub language: Option<String>,
    /// Remote model variant; `None` selects the remote baseline.
    pub model: Option<String>,
    /// Verbatim biasing prompt for the remote API.
    pub prompt: Option<String>,
}

/// The single outcome of a run: either a transcript or an error message,
/// with timing and chunk-count metadata when they became known.
#[derive(Debug)]
pub struct TranscribeResult {
    /// Whether the whole pipeline succeeded.
    pub success: bool,
    /// The stitched transcript; present exactly when `success`.
    pub text: Option<String>,
    /// A human-readable failure message; present exactly when `!success`.
    pub error: Option<String>,
    /// Total audio duration in milliseconds, when the probe succeeded.
    pub duration_ms: Option<u64>,
    /// Number of chunks the audio was split into, when chunking happened.
    pub chunks: Option<u64>,
}

impl Clone for TranscribeResult {
    fn clone(&self) -> (r: Self)
        ensures
            r == *self,
    {
        TranscribeResult {
            success: self.success,
            text: match &self.text {
                Some(t) => Some(t.clone()),
                None => None,
            },
            error: match &self.error {
                Some(e) => Some(e.clone()),
                None => None,
            },
            duration_ms: self.duration_ms,
            chunks: self.chunks,
        }
    }
}

impl TranscribeResult {
    /// The invariant every result upholds: exactly one of `text` / `error`
    /// is populated, according to the success flag.
    pub open spec fn wf(self) -> bool {
        &&& self.success <==> self.text is Some
        &&& self.success <==> self.error is None
    }

    /// Builds the successful outcome for a stitched transcript.
    pub fn succeeded(text: String, duration_ms: u64, chunks: u64) -> (r: TranscribeResult)
        ensures
            r.wf(),
            r.success,
            r.text == Some(text),
            r.error is None,
            r.duration_ms == Some(duration_ms),
            r.chunks == Some(chunks),
    {
        TranscribeResult {
            success: true,
            text: Some(text),
            error: None,
            duration_ms: Some(duration_ms),
            chunks: Some(chunks),
        }
    }

    /// Builds the failed outcome for `err`, with whatever metadata is known.
    /// Metadata that never became known is absent, not fabricated.
    pub fn failed(err: crate::errors::EngineError, duration_ms: Option<u64>, chunks: Option<u64>) -> (r: TranscribeResult)
        ensures
            r.wf(),
            !r.success,
            r.text is None,
            r.error is Some,
            r.error->0@ == err.message_spec(),
            r.duration_ms == duration_ms,
            r.chunks == chunks,
    {
        TranscribeResult {
            success: false,
            text: None,
            error: Some(err.message()),
            duration_ms,
            chunks,
        }
    }
}

} // verus!
