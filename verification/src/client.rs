//! The retry policy of the transcription client.
//!
//! One logical transcription call may take several physical attempts: a
//! transient remote failure (network error, rate limit, server error, or a
//! timeout) is retried after an exponential backoff, up to a fixed ceiling
//! of retries; the failure after the last allowed retry is promoted to the
//! fatal `ExhaustedRetries`. An authentication failure is fatal at once and
//! is never retried. The decision is a pure function of the outcome and the
//! failure count, so the driver performing the network call only has to
//! follow it.

use vstd::prelude::*;

verus! {

/// What one physical call to the remote speech API came back with.
#[derive(Clone, Debug)]
pub enum RemoteOutcome {
    /// The call succeeded with this transcript text, and the confidence the
    /// API reported for it, in thousandths, when it gave one.
    Transcript { text: String, confidence_permille: Option<u16> },
    /// A failure worth retrying: network error, rate limit, server error,
    /// or a timed-out call.
    Transient,
    /// The API rejected the credentials; retrying cannot help.
    AuthFailed,
}

/// What the client does next after one physical call.
#[derive(Clone, Copy, Debug, PartialEq, Eq, Structural)]
pub enum RetryDecision {
    /// Accept the transcript; the chunk is done.
    Accept,
    /// Call again: this will be physical attempt `attempt + 1`, after
    /// waiting `delay_ms`.
    Retry { attempt: u32, delay_ms: u64 },
    /// Stop with this fatal error.
    GiveUp(crate::errors::EngineError),
}

/// The backoff multiplier after this many consecutive failures: doubling,
/// capped at 64 times the base delay.
pub open spec fn backoff_multiplier(failures: int) -> int {
    if failures <= 1 {
        1
    } else if failures == 2 {
        2
    } else if failures == 3 {
        4
    } else if failures == 4 {
        8
    } else if failures == 5 {
        16
    } else if failures == 6 {
        32
    } else {
        64
    }
}

/// The delay before the retry that follows this many consecutive failures.
pub open spec fn backoff_spec(base_ms: int, failures: int) -> int {
    base_ms * backoff_multiplier(failures)
}

/// The exponential backoff delay in milliseconds. The bound on `base_ms`
/// keeps the product within `u64`.
pub fn backoff_ms(base_ms: u64, failures: u32) -> (d: u64)
    requires
        base_ms <= 60_000,
    ensures
        d as int == backoff_spec(base_ms as int, failures as int),
{
    if failures <= 1 {
        base_ms
    } else if failures == 2 {
        base_ms * 2
    } else if failures == 3 {
        base_ms * 4
    } else if failures == 4 {
        base_ms * 8
    } else if failures == 5 {
        base_ms * 16
    } else if failures == 6 {
        base_ms * 32
    } else {
        base_ms * 64
    }
}

/// The client's decision after one physical call whose chunk had already
/// failed transiently `failures_so_far` times: accept a transcript, give up
/// at once on an authentication failure, and retry a transient failure
/// with backoff while the ceiling allows, else give up as exhausted.
pub open spec fn classify_spec(
    outcome: RemoteOutcome,
    failures_so_far: u32,
    retry_ceiling: u32,
    base_backoff_ms: u64,
) -> RetryDecision {
    match outcome {
        RemoteOutcome::Transcript { .. } => RetryDecision::Accept,
        RemoteOutcome::AuthFailed => RetryDecision::GiveUp(
            crate::errors::EngineError::AuthenticationFailure,
        ),
        RemoteOutcome::Transient => if failures_so_far < retry_ceiling {
            RetryDecision::Retry {
                attempt: (failures_so_far + 1) as u32,
                delay_ms: backoff_spec(base_backoff_ms as int, failures_so_far + 1) as u64,
            }
        } else {
            RetryDecision::GiveUp(crate::errors::EngineError::ExhaustedRetries)
        },
    }
}

/// Decides what to do next; exactly `classify_spec`.
pub fn classify_outcome(
    outcome: &RemoteOutcome,
    failures_so_far: u32,
    retry_ceiling: u32,
    base_backoff_ms: u64,
) -> (d: RetryDecision)
    requires
        base_backoff_ms <= 60_000,
    ensures
        d == classify_spec(*outcome, failures_so_far, retry_ceiling, base_backoff_ms),
{
    match outcome {
        RemoteOutcome::Transcript { .. } => RetryDecision::Accept,
        RemoteOutcome::AuthFailed => RetryDecision::GiveUp(
            crate::errors::EngineError::AuthenticationFailure,
        ),
        RemoteOutcome::Transient => {
            if failures_so_far < retry_ceiling {
                RetryDecision::Retry {
                    attempt: failures_so_far + 1,
                    delay_ms: backoff_ms(base_backoff_ms, failures_so_far + 1),
                }
            } else {
                RetryDecision::GiveUp(crate::errors::EngineError::ExhaustedRetries)
            }
        },
    }
}

/// The credential-check verdict for the outcome of one minimal
/// authenticated call: the key is accepted exactly when the call came back
/// with a transcript.
pub fn credential_verdict(outcome: &RemoteOutcome) -> (ok: bool)
    ensures
        ok == (outcome is Transcript),
{
    match outcome {
        RemoteOutcome::Transcript { .. } => true,
        _ => false,
    }
}

/// Transient failures are retried exactly up to the ceiling: the `k`-th
/// consecutive transient failure of a chunk is answered with a retry while
/// `k` is at most `retry_ceiling`, and the `retry_ceiling + 1`-th is
/// promoted to the fatal `ExhaustedRetries`.
pub proof fn lemma_transient_retried_to_ceiling(
    k: u32,
    retry_ceiling: u32,
    base_backoff_ms: u64,
)
    requires
        1 <= k <= retry_ceiling + 1,
    ensures
        k <= retry_ceiling ==> classify_spec(
            RemoteOutcome::Transient,
            (k - 1) as u32,
            retry_ceiling,
            base_backoff_ms,
        ) == (RetryDecision::Retry {
            attempt: k,
            delay_ms: backoff_spec(base_backoff_ms as int, k as int) as u64,
        }),
        k == retry_ceiling + 1 ==> classify_spec(
            RemoteOutcome::Transient,
            (k - 1) as u32,
            retry_ceiling,
            base_backoff_ms,
        ) == RetryDecision::GiveUp(crate::errors::EngineError::ExhaustedRetries),
{
}

} // verus!
