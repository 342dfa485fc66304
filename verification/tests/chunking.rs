use transcribe_engine::chunker::{plan_chunks, ChunkSpan};
use transcribe_engine::errors::EngineError;

#[test]
fn splits_125s_into_three_chunks() {
    let plan = plan_chunks(125_000, 60_000, 5_000).unwrap();
    assert_eq!(plan.len(), 3);
    assert_eq!(
        plan[0],
        ChunkSpan { index: 0, start_ms: 0, end_ms: 60_000, overlap_ms: 0 }
    );
    assert_eq!(
        plan[1],
        ChunkSpan { index: 1, start_ms: 55_000, end_ms: 115_000, overlap_ms: 5_000 }
    );
    assert_eq!(
        plan[2],
        ChunkSpan { index: 2, start_ms: 110_000, end_ms: 125_000, overlap_ms: 5_000 }
    );
}

#[test]
fn chunk_count_matches_ceiling_formula() {
    // ceil(d / (c - o)) for d > c: ceil(200_000 / 55_000) = 4.
    let plan = plan_chunks(200_000, 60_000, 5_000).unwrap();
    assert_eq!(plan.len(), 4);
    // Exactly divisible: ceil(110_000 / 55_000) = 2.
    let plan = plan_chunks(110_000, 60_000, 5_000).unwrap();
    assert_eq!(plan.len(), 2);
}

#[test]
fn indices_are_dense_and_spans_cover_the_timeline() {
    let plan = plan_chunks(333_333, 60_000, 5_000).unwrap();
    assert!(plan.len() >= 1);
    for (i, chunk) in plan.iter().enumerate() {
        assert_eq!(chunk.index, i as u64);
        assert!(chunk.start_ms < chunk.end_ms);
        if i > 0 {
            // Each chunk starts exactly the overlap before its
            // predecessor ends.
            assert_eq!(chunk.overlap_ms, 5_000);
            assert_eq!(chunk.start_ms, plan[i - 1].end_ms - 5_000);
        }
    }
    assert_eq!(plan[0].start_ms, 0);
    assert_eq!(plan[plan.len() - 1].end_ms, 333_333);
}

#[test]
fn short_audio_is_one_chunk_even_where_the_formula_says_two() {
    // 58 s fits under the 60 s ceiling, so exactly one chunk, although
    // ceil(58_000 / 55_000) would be 2.
    let plan = plan_chunks(58_000, 60_000, 5_000).unwrap();
    assert_eq!(plan.len(), 1);
    assert_eq!(
        plan[0],
        ChunkSpan { index: 0, start_ms: 0, end_ms: 58_000, overlap_ms: 0 }
    );
}

#[test]
fn a_cut_short_chunk_keeps_the_exact_overlap_with_its_successor() {
    // 111 s: the middle chunk is cut short at the end of the audio, and
    // the last chunk is pulled back so the five-second overlap still
    // holds exactly.
    let plan = plan_chunks(111_000, 60_000, 5_000).unwrap();
    assert_eq!(plan.len(), 3);
    assert_eq!(
        plan[0],
        ChunkSpan { index: 0, start_ms: 0, end_ms: 60_000, overlap_ms: 0 }
    );
    assert_eq!(
        plan[1],
        ChunkSpan { index: 1, start_ms: 55_000, end_ms: 111_000, overlap_ms: 5_000 }
    );
    assert_eq!(
        plan[2],
        ChunkSpan { index: 2, start_ms: 106_000, end_ms: 111_000, overlap_ms: 5_000 }
    );
}

#[test]
fn zero_duration_is_empty_audio() {
    assert_eq!(plan_chunks(0, 60_000, 5_000), Err(EngineError::EmptyAudio));
}
