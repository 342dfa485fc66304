use transcribe_engine::errors::EngineError;
use transcribe_engine::stitcher::{stitch, ChunkTranscript};

fn transcript(index: u64, text: &str) -> ChunkTranscript {
    ChunkTranscript { index, text: text.to_string(), confidence_permille: None }
}

#[test]
fn single_chunk_is_returned_unchanged() {
    let input = vec![transcript(0, "  hello world — unchanged, spaces and all  ")];
    let out = stitch(&input).unwrap();
    assert_eq!(out, "  hello world — unchanged, spaces and all  ");
}

#[test]
fn stitching_is_deterministic() {
    let make = || {
        vec![
            transcript(0, "the quick brown fox"),
            transcript(1, "fox jumps over the"),
            transcript(2, "the lazy dog"),
        ]
    };
    let first = stitch(&make()).unwrap();
    let second = stitch(&make()).unwrap();
    assert_eq!(first, second);
    assert_eq!(first.as_bytes(), second.as_bytes());
}

#[test]
fn overlapping_boundary_is_trimmed() {
    let input = vec![transcript(0, "one two three"), transcript(1, "three four five")];
    assert_eq!(stitch(&input).unwrap(), "one two three four five");
}

#[test]
fn unmatched_boundary_joins_with_one_space() {
    let input = vec![transcript(0, "alpha beta"), transcript(1, "gamma delta")];
    assert_eq!(stitch(&input).unwrap(), "alpha beta gamma delta");
}

#[test]
fn longest_boundary_match_wins() {
    // Both "b" and "a b" match at the boundary; the longer match is the
    // one that is trimmed.
    let input = vec![transcript(0, "x a b"), transcript(1, "a b y")];
    assert_eq!(stitch(&input).unwrap(), "x a b y");
}

#[test]
fn missing_chunk_is_rejected() {
    let input = vec![transcript(0, "start"), transcript(2, "end")];
    assert_eq!(stitch(&input), Err(EngineError::MissingChunk));
}

#[test]
fn out_of_order_chunks_are_rejected() {
    let input = vec![transcript(1, "b"), transcript(0, "a")];
    assert_eq!(stitch(&input), Err(EngineError::MissingChunk));
}

#[test]
fn identical_neighbors_collapse_to_one() {
    let input = vec![transcript(0, "same words"), transcript(1, "same words")];
    assert_eq!(stitch(&input).unwrap(), "same words");
}

#[test]
fn an_empty_chunk_text_adds_nothing() {
    let input = vec![transcript(0, ""), transcript(1, "only voice here")];
    assert_eq!(stitch(&input).unwrap(), "only voice here");
    let input = vec![transcript(0, "only voice here"), transcript(1, "")];
    assert_eq!(stitch(&input).unwrap(), "only voice here");
}

#[test]
fn boundaries_match_by_character_not_by_byte() {
    let input = vec![transcript(0, "café au"), transcript(1, "au lait")];
    assert_eq!(stitch(&input).unwrap(), "café au lait");
}

#[test]
fn empty_sequence_stitches_to_empty_text() {
    let input: Vec<ChunkTranscript> = Vec::new();
    assert_eq!(stitch(&input).unwrap(), "");
}
