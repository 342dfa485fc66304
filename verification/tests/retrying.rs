use transcribe_engine::client::{
    backoff_ms, classify_outcome, credential_verdict, RemoteOutcome, RetryDecision,
};
use transcribe_engine::errors::EngineError;

#[test]
fn backoff_doubles_and_caps() {
    assert_eq!(backoff_ms(500, 1), 500);
    assert_eq!(backoff_ms(500, 2), 1_000);
    assert_eq!(backoff_ms(500, 3), 2_000);
    assert_eq!(backoff_ms(500, 4), 4_000);
    assert_eq!(backoff_ms(500, 5), 8_000);
    assert_eq!(backoff_ms(500, 6), 16_000);
    assert_eq!(backoff_ms(500, 7), 32_000);
    // The multiplier caps at 64: further failures wait no longer.
    assert_eq!(backoff_ms(500, 8), 32_000);
    assert_eq!(backoff_ms(500, 100), 32_000);
}

#[test]
fn transient_failures_retry_until_the_ceiling() {
    let ceiling = 3;
    assert_eq!(
        classify_outcome(&RemoteOutcome::Transient, 0, ceiling, 500),
        RetryDecision::Retry { attempt: 1, delay_ms: 500 }
    );
    assert_eq!(
        classify_outcome(&RemoteOutcome::Transient, 1, ceiling, 500),
        RetryDecision::Retry { attempt: 2, delay_ms: 1_000 }
    );
    assert_eq!(
        classify_outcome(&RemoteOutcome::Transient, 2, ceiling, 500),
        RetryDecision::Retry { attempt: 3, delay_ms: 2_000 }
    );
    // The failure after the last allowed retry is promoted to fatal.
    assert_eq!(
        classify_outcome(&RemoteOutcome::Transient, 3, ceiling, 500),
        RetryDecision::GiveUp(EngineError::ExhaustedRetries)
    );
}

#[test]
fn authentication_failure_is_never_retried() {
    assert_eq!(
        classify_outcome(&RemoteOutcome::AuthFailed, 0, 3, 500),
        RetryDecision::GiveUp(EngineError::AuthenticationFailure)
    );
}

#[test]
fn a_transcript_is_accepted() {
    let outcome = RemoteOutcome::Transcript {
        text: "hello".to_string(),
        confidence_permille: Some(950),
    };
    assert_eq!(classify_outcome(&outcome, 2, 3, 500), RetryDecision::Accept);
}

#[test]
fn credential_check_accepts_only_a_transcript() {
    let ok = RemoteOutcome::Transcript { text: String::new(), confidence_permille: None };
    assert!(credential_verdict(&ok));
    assert!(!credential_verdict(&RemoteOutcome::AuthFailed));
    assert!(!credential_verdict(&RemoteOutcome::Transient));
}

#[test]
fn every_error_has_its_own_message() {
    assert!(EngineError::UnreadableFile.message().contains("unreadable"));
    assert!(EngineError::CorruptAudio.message().contains("corrupt"));
    assert!(EngineError::EmptyAudio.message().contains("empty"));
    assert!(EngineError::AuthenticationFailure.message().contains("authentication"));
    assert!(EngineError::ExhaustedRetries.message().contains("retries"));
    assert!(EngineError::MissingChunk.message().contains("missing chunk"));
}
