use transcribe_engine::client::RemoteOutcome;
use transcribe_engine::engine::{Engine, EngineParams, ProbeOutcome, Step};
use transcribe_engine::model::TranscribeConfig;

fn config() -> TranscribeConfig {
    TranscribeConfig {
        file_path: "meeting.mp3".to_string(),
        api_key: "test-key".to_string(),
        language: None,
        model: None,
        prompt: None,
    }
}

fn transcript_of(text: &str) -> RemoteOutcome {
    RemoteOutcome::Transcript { text: text.to_string(), confidence_permille: Some(900) }
}

/// Polls until the engine stops handing out submissions; returns the
/// submitted chunk indices.
fn drain_submissions(engine: &mut Engine) -> Vec<usize> {
    let mut submitted = Vec::new();
    loop {
        match engine.poll() {
            Step::Submit { index, .. } => submitted.push(index as usize),
            Step::Wait => return submitted,
            Step::Finished(_) => panic!("finished while submissions were expected"),
        }
    }
}

#[test]
fn a_125s_file_yields_three_chunks_and_a_stitched_text() {
    let mut engine = Engine::new(config(), EngineParams::recommended());
    engine.on_probe(ProbeOutcome::Duration(125_000));
    let submitted = drain_submissions(&mut engine);
    assert_eq!(submitted, vec![0, 1, 2]);
    let texts = ["the meeting began", "began with introductions", "introductions and closed"];
    // Completion order differs from chunk order; the output may not depend
    // on it.
    for &i in &[2usize, 0, 1] {
        engine.on_chunk(i, transcript_of(texts[i]));
    }
    match engine.poll() {
        Step::Finished(result) => {
            assert!(result.success);
            assert_eq!(
                result.text.as_deref(),
                Some("the meeting began with introductions and closed")
            );
            assert_eq!(result.error, None);
            assert_eq!(result.duration_ms, Some(125_000));
            assert_eq!(result.chunks, Some(3));
        },
        _ => panic!("expected the run to finish"),
    }
}

#[test]
fn completion_order_never_affects_the_output() {
    let texts = ["alpha beta", "beta gamma", "gamma delta"];
    let mut outputs = Vec::new();
    for order in [[0usize, 1, 2], [2, 1, 0], [1, 2, 0]] {
        let mut engine = Engine::new(config(), EngineParams::recommended());
        engine.on_probe(ProbeOutcome::Duration(125_000));
        drain_submissions(&mut engine);
        for &i in &order {
            engine.on_chunk(i, transcript_of(texts[i]));
        }
        match engine.poll() {
            Step::Finished(result) => outputs.push(result.text.unwrap()),
            _ => panic!("expected the run to finish"),
        }
    }
    assert_eq!(outputs[0], "alpha beta gamma delta");
    assert_eq!(outputs[0], outputs[1]);
    assert_eq!(outputs[0], outputs[2]);
}

#[test]
fn transient_failures_are_retried_to_the_ceiling_then_fatal() {
    // The recommended retry ceiling is 3: four physical attempts in all.
    let mut engine = Engine::new(config(), EngineParams::recommended());
    engine.on_probe(ProbeOutcome::Duration(30_000));
    let expected = [(1u32, 0u64), (2, 500), (3, 1_000), (4, 2_000)];
    for (expected_attempt, expected_delay) in expected {
        match engine.poll() {
            Step::Submit { index, attempt, delay_ms } => {
                assert_eq!(index, 0);
                assert_eq!(attempt, expected_attempt);
                assert_eq!(delay_ms, expected_delay);
            },
            _ => panic!("expected another attempt for the chunk"),
        }
        engine.on_chunk(0, RemoteOutcome::Transient);
    }
    // The fourth consecutive transient failure exceeded the ceiling.
    match engine.poll() {
        Step::Finished(result) => {
            assert!(!result.success);
            assert!(result.error.as_deref().unwrap().contains("exhausted retries"));
            assert_eq!(result.text, None);
            assert_eq!(result.duration_ms, Some(30_000));
            assert_eq!(result.chunks, Some(1));
        },
        _ => panic!("expected the run to give up"),
    }
}

#[test]
fn an_invalid_key_fails_at_once_without_a_retry_delay() {
    let mut engine = Engine::new(config(), EngineParams::recommended());
    engine.on_probe(ProbeOutcome::Duration(10_000));
    match engine.poll() {
        Step::Submit { index, attempt, delay_ms } => {
            assert_eq!((index, attempt, delay_ms), (0, 1, 0));
        },
        _ => panic!("expected the one chunk to be submitted"),
    }
    engine.on_chunk(0, RemoteOutcome::AuthFailed);
    // No further submission: the very next poll ends the run.
    match engine.poll() {
        Step::Finished(result) => {
            assert!(!result.success);
            assert!(result.error.as_deref().unwrap().contains("authentication"));
            assert_eq!(result.text, None);
        },
        _ => panic!("an authentication failure must end the run at once"),
    }
}

#[test]
fn a_fatal_failure_discards_in_flight_results() {
    let mut engine = Engine::new(config(), EngineParams::recommended());
    // ceil(70_000 / 55_000) = 2 chunks.
    engine.on_probe(ProbeOutcome::Duration(70_000));
    let submitted = drain_submissions(&mut engine);
    assert_eq!(submitted, vec![0, 1]);
    engine.on_chunk(0, RemoteOutcome::AuthFailed);
    // Chunk 1 is still in flight: the engine waits for it but dispatches
    // nothing new.
    match engine.poll() {
        Step::Wait => {},
        _ => panic!("expected the engine to wait out the in-flight call"),
    }
    engine.on_chunk(1, transcript_of("discarded words"));
    match engine.poll() {
        Step::Finished(result) => {
            assert!(!result.success);
            assert!(result.error.as_deref().unwrap().contains("authentication"));
            assert_eq!(result.text, None);
        },
        _ => panic!("expected the run to finish with the fatal error"),
    }
}

#[test]
fn a_nonexistent_file_reports_unreadable_with_no_metadata() {
    let mut engine = Engine::new(config(), EngineParams::recommended());
    engine.on_probe(ProbeOutcome::Unreadable);
    match engine.poll() {
        Step::Finished(result) => {
            assert!(!result.success);
            assert!(result.error.as_deref().unwrap().contains("unreadable"));
            assert_eq!(result.text, None);
            assert_eq!(result.duration_ms, None);
            assert_eq!(result.chunks, None);
        },
        _ => panic!("expected the run to finish at once"),
    }
}

#[test]
fn an_undeterminable_duration_reports_corrupt_audio() {
    let mut engine = Engine::new(config(), EngineParams::recommended());
    engine.on_probe(ProbeOutcome::Corrupt);
    match engine.poll() {
        Step::Finished(result) => {
            assert!(!result.success);
            assert!(result.error.as_deref().unwrap().contains("corrupt"));
            assert_eq!(result.duration_ms, None);
            assert_eq!(result.chunks, None);
        },
        _ => panic!("expected the run to finish at once"),
    }
}

#[test]
fn zero_duration_reports_empty_audio_with_the_known_duration() {
    let mut engine = Engine::new(config(), EngineParams::recommended());
    engine.on_probe(ProbeOutcome::Duration(0));
    match engine.poll() {
        Step::Finished(result) => {
            assert!(!result.success);
            assert!(result.error.as_deref().unwrap().contains("empty"));
            assert_eq!(result.duration_ms, Some(0));
            assert_eq!(result.chunks, None);
        },
        _ => panic!("expected the run to finish at once"),
    }
}

#[test]
fn every_outcome_upholds_the_success_invariant() {
    let runs: Vec<Box<dyn Fn(&mut Engine)>> = vec![
        Box::new(|e: &mut Engine| e.on_probe(ProbeOutcome::Unreadable)),
        Box::new(|e: &mut Engine| e.on_probe(ProbeOutcome::Corrupt)),
        Box::new(|e: &mut Engine| e.on_probe(ProbeOutcome::Duration(0))),
        Box::new(|e: &mut Engine| {
            e.on_probe(ProbeOutcome::Duration(20_000));
            drain_submissions(e);
            e.on_chunk(0, transcript_of("fine"));
        }),
        Box::new(|e: &mut Engine| {
            e.on_probe(ProbeOutcome::Duration(20_000));
            drain_submissions(e);
            e.on_chunk(0, RemoteOutcome::AuthFailed);
        }),
    ];
    for run in runs {
        let mut engine = Engine::new(config(), EngineParams::recommended());
        run(&mut engine);
        match engine.poll() {
            Step::Finished(result) => {
                assert_eq!(result.success, result.text.is_some());
                assert_eq!(result.success, result.error.is_none());
            },
            _ => panic!("expected a finished run"),
        }
    }
}
