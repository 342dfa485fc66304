//! The failure taxonomy of the engine.
//!
//! Input problems (`UnreadableFile`, `CorruptAudio`, `EmptyAudio`) and
//! authentication failures are fatal at once; transient remote failures are
//! retried and only promoted to the fatal `ExhaustedRetries` once the retry
//! ceiling is hit; `MissingChunk` marks an internal consistency failure.

use vstd::prelude::*;

verus! {

/// Every way a transcription run can fail, as reported to the caller.
#[derive(Clone, Copy, Debug, PartialEq, Eq, Structural)]
pub enum EngineError {
    /// The input path does not name a readable, supported audio file.
    UnreadableFile,
    /// The file opened, but its duration could not be determined.
    CorruptAudio,
    /// The audio has zero duration: there is nothing to transcribe.
    EmptyAudio,
    /// The remote API rejected the credentials; never retried.
    AuthenticationFailure,
    /// Consecutive transient remote failures exceeded the retry ceiling.
    ExhaustedRetries,
    /// A chunk transcript was absent where a dense sequence was owed.
    MissingChunk,
}

impl EngineError {
    /// The human-readable message reported for this failure.
    pub open spec fn message_spec(self) -> Seq<char> {
        match self {
            EngineError::UnreadableFile => "unreadable file: path does not exist or is not a supported audio file"@,
            EngineError::CorruptAudio => "corrupt audio: duration could not be determined"@,
            EngineError::EmptyAudio => "empty audio: duration is zero"@,
            EngineError::AuthenticationFailure => "authentication failure: the API key was rejected"@,
            EngineError::ExhaustedRetries => "exhausted retries: the remote API kept failing transiently"@,
            EngineError::MissingChunk => "missing chunk: a transcript was lost before stitching"@,
        }
    }

    /// Renders the message; the result is exactly `message_spec`.
    pub fn message(&self) -> (s: String)
        ensures
            s@ == self.message_spec(),
    {
        match self {
            EngineError::UnreadableFile => String::from_str("unreadable file: path does not exist or is not a supported audio file"),
            EngineError::CorruptAudio => String::from_str("corrupt audio: duration could not be determined"),
            EngineError::EmptyAudio => String::from_str("empty audio: duration is zero"),
            EngineError::AuthenticationFailure => String::from_str("authentication failure: the API key was rejected"),
            EngineError::ExhaustedRetries => String::from_str("exhausted retries: the remote API kept failing transiently"),
            EngineError::MissingChunk => String::from_str("missing chunk: a transcript was lost before stitching"),
        }
    }
}

} // verus!
