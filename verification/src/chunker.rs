//! Splitting the audio timeline into bounded, overlapping chunks.
//!
//! Chunk length is capped by a fixed ceiling so the remote API's per-call
//! limit is never exceeded; consecutive chunks overlap by a small fixed
//! duration so words split at a boundary can be recovered when stitching.
//! Audio no longer than the ceiling yields exactly one chunk; longer audio
//! yields `ceil(duration / (ceiling - overlap))` chunks, indexed densely
//! from zero. Every later chunk starts exactly the overlap before its
//! predecessor ends: where a chunk is cut short by the end of the audio,
//! its successor is pulled back accordingly, so the overlap never shrinks
//! or grows at the tail.

use vstd::prelude::*;

verus! {

/// One planned segment of the input timeline, in milliseconds.
#[derive(Clone, Copy, Debug, PartialEq, Eq, Structural)]
pub struct ChunkSpan {
    /// Position of this chunk in the dense `0..n` order.
    pub index: u64,
    /// Start offset in the original timeline.
    pub start_ms: u64,
    /// End offset (exclusive) in the original timeline.
    pub end_ms: u64,
    /// How far this chunk reaches back into its predecessor — exactly the
    /// configured overlap for every chunk but the first, whose overlap is
    /// zero.
    pub overlap_ms: u64,
}

/// `ceil(a / b)` on nonnegative `a` and positive `b`.
pub open spec fn ceil_div(a: int, b: int) -> int
    recommends
        a >= 0,
        b > 0,
{
    (a + b - 1) / b
}

/// How many chunks a `duration_ms` timeline yields under `ceiling_ms` and
/// `overlap_ms`: one when the whole file fits in a single chunk, otherwise
/// the ceiling of the duration over the per-chunk advance.
pub open spec fn chunk_count(duration_ms: int, ceiling_ms: int, overlap_ms: int) -> int
    recommends
        duration_ms > 0,
        0 <= overlap_ms < ceiling_ms,
{
    if duration_ms <= ceiling_ms {
        1
    } else {
        ceil_div(duration_ms, ceiling_ms - overlap_ms)
    }
}

/// The chunk at position `i`: it starts where the advance (`ceiling_ms -
/// overlap_ms`) has carried it — but never later than `overlap_ms` before
/// the end of the audio — and runs for the ceiling or to the end of the
/// audio, whichever comes first. Pulling a late start back to
/// `duration_ms - overlap_ms` is what keeps the overlap with the
/// predecessor exact even where the predecessor was cut short by the end
/// of the audio.
pub open spec fn chunk_at(i: int, duration_ms: int, ceiling_ms: int, overlap_ms: int) -> ChunkSpan
    recommends
        0 <= i < chunk_count(duration_ms, ceiling_ms, overlap_ms),
{
    let advance = ceiling_ms - overlap_ms;
    let start = if i <= 0 {
        0
    } else if i * advance <= duration_ms - overlap_ms {
        i * advance
    } else {
        duration_ms - overlap_ms
    };
    ChunkSpan {
        index: i as u64,
        start_ms: start as u64,
        end_ms: (if start + ceiling_ms <= duration_ms { start + ceiling_ms } else { duration_ms }) as u64,
        overlap_ms: (if i == 0 { 0 } else { overlap_ms }) as u64,
    }
}

/// A plan is exactly the dense sequence of `chunk_at` spans.
pub open spec fn is_chunk_plan(plan: Seq<ChunkSpan>, duration_ms: int, ceiling_ms: int, overlap_ms: int) -> bool {
    &&& plan.len() == chunk_count(duration_ms, ceiling_ms, overlap_ms)
    &&& forall|i: int|
        0 <= i < plan.len() ==> plan[i] == chunk_at(i, duration_ms, ceiling_ms, overlap_ms)
}

/// Splits a `duration_ms`-long timeline into the planned chunks.
///
/// Returns `EmptyAudio` exactly when the duration is zero; otherwise the
/// plan is the dense `chunk_at` sequence, never empty. The bound on
/// `duration_ms + ceiling_ms` only keeps every offset within `u64`.
pub fn plan_chunks(duration_ms: u64, ceiling_ms: u64, overlap_ms: u64) -> (r: Result<
    Vec<ChunkSpan>,
    crate::errors::EngineError,
>)
    requires
        overlap_ms < ceiling_ms,
        duration_ms + ceiling_ms <= u64::MAX,
    ensures
        duration_ms == 0 ==> r == Result::<Vec<ChunkSpan>, crate::errors::EngineError>::Err(
            crate::errors::EngineError::EmptyAudio,
        ),
        duration_ms > 0 ==> r is Ok && is_chunk_plan(
            r->Ok_0@,
            duration_ms as int,
            ceiling_ms as int,
            overlap_ms as int,
        ),
{
    if duration_ms == 0 {
        return Err(crate::errors::EngineError::EmptyAudio);
    }
    let mut plan: Vec<ChunkSpan> = Vec::new();
    if duration_ms <= ceiling_ms {
        plan.push(ChunkSpan { index: 0, start_ms: 0, end_ms: duration_ms, overlap_ms: 0 });
        assert(plan@ =~= Seq::empty().push(chunk_at(0, duration_ms as int, ceiling_ms as int, overlap_ms as int)));
        return Ok(plan);
    }
    let step: u64 = ceiling_ms - overlap_ms;
    let n_chunks: u64 = (duration_ms + step - 1) / step;
    proof {
        lemma_ceil_div_bracket(duration_ms as int, step as int);
    }
    let mut i: u64 = 0;
    let mut adv: u64 = 0;
    while i < n_chunks
        invariant
            step == ceiling_ms - overlap_ms,
            overlap_ms < ceiling_ms < duration_ms,
            duration_ms + ceiling_ms <= u64::MAX,
            n_chunks as int == ceil_div(duration_ms as int, step as int),
            n_chunks * step >= duration_ms,
            (n_chunks - 1) * step < duration_ms,
            0 <= i <= n_chunks,
            adv == i * step,
            i as int == plan@.len() as int,
            forall|j: int|
                0 <= j < plan@.len() ==> plan@[j] == chunk_at(
                    j,
                    duration_ms as int,
                    ceiling_ms as int,
                    overlap_ms as int,
                ),
        decreases n_chunks - i,
    {
        proof {
            assert(i * step <= (n_chunks - 1) * step) by (nonlinear_arith)
                requires
                    0 <= i <= n_chunks - 1,
                    step > 0;
        }
        let start: u64 = if i == 0 {
            0
        } else if adv <= duration_ms - overlap_ms {
            adv
        } else {
            duration_ms - overlap_ms
        };
        let end: u64 = if start <= duration_ms - ceiling_ms {
            start + ceiling_ms
        } else {
            duration_ms
        };
        let ov: u64 = if i == 0 {
            0
        } else {
            overlap_ms
        };
        plan.push(ChunkSpan { index: i, start_ms: start, end_ms: end, overlap_ms: ov });
        proof {
            assert(plan@[i as int] == chunk_at(
                i as int,
                duration_ms as int,
                ceiling_ms as int,
                overlap_ms as int,
            ));
            assert((i + 1) * step == i * step + step) by (nonlinear_arith);
            assert(n_chunks * step == (n_chunks - 1) * step + step) by (nonlinear_arith);
            assert((i + 1) * step <= n_chunks * step) by (nonlinear_arith)
                requires
                    i + 1 <= n_chunks,
                    step > 0;
        }
        i = i + 1;
        adv = adv + step;
    }
    Ok(plan)
}

/// `ceil_div` rounds up: `ceil_div(d, step)` steps reach `d`, one fewer
/// does not.
proof fn lemma_ceil_div_bracket(d: int, step: int)
    requires
        d > 0,
        step > 0,
    ensures
        ceil_div(d, step) >= 1,
        ceil_div(d, step) * step >= d,
        (ceil_div(d, step) - 1) * step < d,
{
    let q = ceil_div(d, step);
    vstd::arithmetic::div_mod::lemma_fundamental_div_mod(d + step - 1, step);
    vstd::arithmetic::div_mod::lemma_mod_bound(d + step - 1, step);
    assert(step * q == q * step) by (nonlinear_arith);
    assert((q - 1) * step == q * step - step) by (nonlinear_arith);
    assert(q >= 1) by (nonlinear_arith)
        requires
            q * step >= d,
            d > 0,
            step > 0;
}

/// The plan tiles the whole timeline: the first chunk starts at zero, the
/// last ends at the duration, and every later chunk starts exactly
/// `overlap_ms` before its predecessor ends — the overlap between
/// neighbors is the configured one everywhere, the cut-short tail
/// included. The bound on `duration_ms + ceiling_ms` only keeps the
/// offsets within `u64`, as in `plan_chunks`.
pub proof fn lemma_plan_covers(plan: Seq<ChunkSpan>, duration_ms: int, ceiling_ms: int, overlap_ms: int)
    requires
        duration_ms > 0,
        0 < overlap_ms < ceiling_ms,
        duration_ms + ceiling_ms <= u64::MAX,
        is_chunk_plan(plan, duration_ms, ceiling_ms, overlap_ms),
    ensures
        plan[0].start_ms == 0,
        plan[plan.len() - 1].end_ms == duration_ms,
        forall|i: int|
            0 < i < plan.len() ==> #[trigger] plan[i].start_ms == plan[i - 1].end_ms - overlap_ms,
{
    let step = ceiling_ms - overlap_ms;
    let n = plan.len() as int;
    lemma_ceil_div_bracket(duration_ms, step);
    assert(n >= 1);
    assert(plan[0] == chunk_at(0, duration_ms, ceiling_ms, overlap_ms));
    assert(plan[n - 1] == chunk_at(n - 1, duration_ms, ceiling_ms, overlap_ms));
    assert(0 * step == 0) by (nonlinear_arith);
    if duration_ms > ceiling_ms {
        assert((n - 1) * step == n * step - step) by (nonlinear_arith);
    }
    assert forall|i: int|
        0 < i < plan.len() implies #[trigger] plan[i].start_ms == plan[i - 1].end_ms
            - overlap_ms by {
        assert(plan[i] == chunk_at(i, duration_ms, ceiling_ms, overlap_ms));
        assert(plan[i - 1] == chunk_at(i - 1, duration_ms, ceiling_ms, overlap_ms));
        assert(duration_ms > ceiling_ms);
        assert(i * step == (i - 1) * step + step) by (nonlinear_arith);
        assert((i - 1) * step >= 0 && i * step >= step) by (nonlinear_arith)
            requires
                i >= 1,
                step > 0;
    }
}

/// The chunker never yields an empty plan, and its indices are dense: the
/// chunk at each position carries that position as its index.
pub proof fn lemma_plan_dense(plan: Seq<ChunkSpan>, duration_ms: int, ceiling_ms: int, overlap_ms: int)
    requires
        duration_ms > 0,
        0 <= overlap_ms < ceiling_ms,
        is_chunk_plan(plan, duration_ms, ceiling_ms, overlap_ms),
    ensures
        plan.len() >= 1,
        forall|i: int| 0 <= i < plan.len() ==> plan[i].index == i as u64,
{
    if duration_ms > ceiling_ms {
        assert(ceil_div(duration_ms, ceiling_ms - overlap_ms) >= 1) by (nonlinear_arith)
            requires
                duration_ms > ceiling_ms > overlap_ms >= 0;
    }
    assert forall|i: int| 0 <= i < plan.len() implies plan[i].index == i as u64 by {
        assert(plan[i] == chunk_at(i, duration_ms, ceiling_ms, overlap_ms));
    }
}

} // verus!
