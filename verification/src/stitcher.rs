//! Merging ordered per-chunk transcripts into one text.
//!
//! Consecutive chunks overlap in time, so consecutive transcripts tend to
//! repeat a few words at their boundary. The stitcher drops the longest
//! suffix of the text so far that reappears as a prefix of the next chunk's
//! text; when nothing matches, it joins the two with a single space. The
//! merge is a pure function of the transcript sequence, so stitching is
//! deterministic. A transcript sequence whose indices are not the dense
//! `0..n` order is rejected as `MissingChunk`, never silently shortened.

use vstd::prelude::*;

verus! {

/// The transcript the remote API produced for one chunk.
#[derive(Debug)]
pub struct ChunkTranscript {
    /// Index of the chunk this text belongs to, in the dense `0..n` order.
    pub index: u64,
    /// The transcribed text of this chunk.
    pub text: String,
    /// Confidence in thousandths, when the remote API reported one.
    pub confidence_permille: Option<u16>,
}

impl Clone for ChunkTranscript {
    fn clone(&self) -> (r: Self)
        ensures
            r == *self,
    {
        ChunkTranscript {
            index: self.index,
            text: self.text.clone(),
            confidence_permille: self.confidence_permille,
        }
    }
}

/// The indices carry exactly the positions `0..n`: nothing is missing and
/// nothing is out of order.
pub open spec fn dense(ts: Seq<ChunkTranscript>) -> bool {
    forall|i: int| 0 <= i < ts.len() ==> ts[i].index == i as u64
}

/// The texts of the transcripts, in sequence order.
pub open spec fn texts_of(ts: Seq<ChunkTranscript>) -> Seq<Seq<char>> {
    ts.map_values(|t: ChunkTranscript| t.text@)
}

/// The last `k` characters of `a` are exactly the first `k` characters of
/// `b`.
pub open spec fn is_boundary_match(a: Seq<char>, b: Seq<char>, k: int) -> bool {
    &&& 0 <= k <= a.len()
    &&& k <= b.len()
    &&& forall|i: int| 0 <= i < k ==> a[a.len() - k + i] == b[i]
}

/// The largest `j <= k` at which the boundary matches; zero when none does.
pub open spec fn overlap_from(a: Seq<char>, b: Seq<char>, k: int) -> int
    decreases k,
{
    if k <= 0 {
        0
    } else if is_boundary_match(a, b, k) {
        k
    } else {
        overlap_from(a, b, k - 1)
    }
}

/// The length of the longest suffix of `a` that is also a prefix of `b`.
pub open spec fn boundary_overlap(a: Seq<char>, b: Seq<char>) -> int {
    overlap_from(a, b, if a.len() <= b.len() { a.len() as int } else { b.len() as int })
}

/// Merging one more transcript onto the text stitched so far: drop the
/// duplicated boundary when one exists, otherwise join with one space
/// (or with nothing when either side is empty).
pub open spec fn merge_pair_spec(a: Seq<char>, b: Seq<char>) -> Seq<char> {
    let k = boundary_overlap(a, b);
    if k > 0 {
        a + b.skip(k)
    } else if a.len() == 0 {
        b
    } else if b.len() == 0 {
        a
    } else {
        a + seq![' '] + b
    }
}

/// The stitched text of an ordered sequence of chunk texts: the left fold
/// of `merge_pair_spec`, starting from the first text.
pub open spec fn stitched(texts: Seq<Seq<char>>) -> Seq<char>
    decreases texts.len(),
{
    if texts.len() == 0 {
        Seq::empty()
    } else if texts.len() == 1 {
        texts[0]
    } else {
        merge_pair_spec(stitched(texts.drop_last()), texts.last())
    }
}

/// `overlap_from` stays between zero and its starting bound.
proof fn lemma_overlap_from_range(a: Seq<char>, b: Seq<char>, k: int)
    requires
        k >= 0,
    ensures
        0 <= overlap_from(a, b, k) <= k,
    decreases k,
{
    if k > 0 && !is_boundary_match(a, b, k) {
        lemma_overlap_from_range(a, b, k - 1);
    }
}

/// Whether the last `k` characters of `a` equal the first `k` of `b`.
fn matches_at(a: &str, b: &str, k: usize) -> (r: bool)
    requires
        k <= a@.len(),
        k <= b@.len(),
    ensures
        r == is_boundary_match(a@, b@, k as int),
{
    let a_len = a.unicode_len();
    let mut i: usize = 0;
    while i < k
        invariant
            0 <= i <= k <= a@.len(),
            k <= b@.len(),
            a_len == a@.len(),
            forall|j: int| 0 <= j < i ==> a@[a@.len() - k + j] == b@[j],
        decreases k - i,
    {
        let ca = a.get_char(a_len - k + i);
        let cb = b.get_char(i);
        if ca != cb {
            assert(a@[a@.len() - k + i] != b@[i as int]);
            return false;
        }
        i = i + 1;
    }
    true
}

/// The length of the longest suffix of `a` that is also a prefix of `b`;
/// exactly `boundary_overlap` of the two views.
fn boundary_overlap_len(a: &str, b: &str) -> (k: usize)
    ensures
        k == boundary_overlap(a@, b@),
        k <= a@.len(),
        k <= b@.len(),
{
    let a_len = a.unicode_len();
    let b_len = b.unicode_len();
    let start: usize = if a_len <= b_len {
        a_len
    } else {
        b_len
    };
    let mut k = start;
    while k > 0
        invariant
            0 <= k <= start,
            start == (if a@.len() <= b@.len() { a@.len() as int } else { b@.len() as int }),
            a_len == a@.len(),
            b_len == b@.len(),
            overlap_from(a@, b@, start as int) == overlap_from(a@, b@, k as int),
        decreases k,
    {
        if matches_at(a, b, k) {
            proof {
                lemma_overlap_from_range(a@, b@, k as int);
            }
            return k;
        }
        k = k - 1;
    }
    0
}

/// Merges the next chunk's text onto the text stitched so far, per
/// `merge_pair_spec`.
pub fn merge_pair(acc: &str, next: &str) -> (r: String)
    ensures
        r@ == merge_pair_spec(acc@, next@),
{
    let k = boundary_overlap_len(acc, next);
    if k > 0 {
        let next_len = next.unicode_len();
        let tail = next.substring_char(k, next_len);
        let mut out = String::from_str(acc);
        out.append(tail);
        proof {
            assert(next@.subrange(k as int, next@.len() as int) =~= next@.skip(k as int));
        }
        out
    } else if acc.unicode_len() == 0 {
        String::from_str(next)
    } else if next.unicode_len() == 0 {
        String::from_str(acc)
    } else {
        let mut out = String::from_str(acc);
        out.append(" ");
        out.append(next);
        proof {
            reveal_strlit(" ");
            assert(acc@ + " "@ + next@ =~= acc@ + seq![' '] + next@);
        }
        out
    }
}

/// Stitches ordered chunk transcripts into one text.
///
/// When the indices are the dense `0..n` order the result is exactly the
/// `stitched` fold of the texts (the empty sequence stitches to the empty
/// text); any gap or disorder is reported as `MissingChunk`.
pub fn stitch(transcripts: &Vec<ChunkTranscript>) -> (r: Result<String, crate::errors::EngineError>)
    ensures
        dense(transcripts@) ==> r is Ok && r->Ok_0@ == stitched(texts_of(transcripts@)),
        !dense(transcripts@) ==> r == Result::<String, crate::errors::EngineError>::Err(
            crate::errors::EngineError::MissingChunk,
        ),
{
    let n = transcripts.len();
    let mut idx: usize = 0;
    while idx < n
        invariant
            0 <= idx <= n == transcripts@.len(),
            forall|j: int| 0 <= j < idx ==> transcripts@[j].index == j as u64,
        decreases n - idx,
    {
        if transcripts[idx].index != idx as u64 {
            assert(!dense(transcripts@));
            return Err(crate::errors::EngineError::MissingChunk);
        }
        idx = idx + 1;
    }
    assert(dense(transcripts@));
    if n == 0 {
        return Ok(String::new());
    }
    let mut out = String::from_str(transcripts[0].text.as_str());
    assert(out@ == stitched(texts_of(transcripts@).take(1)));
    let mut j: usize = 1;
    while j < n
        invariant
            1 <= j <= n == transcripts@.len(),
            out@ == stitched(texts_of(transcripts@).take(j as int)),
        decreases n - j,
    {
        out = merge_pair(out.as_str(), transcripts[j].text.as_str());
        proof {
            let texts = texts_of(transcripts@);
            assert(texts.take(j + 1).drop_last() =~= texts.take(j as int));
            assert(texts.take(j + 1).last() == texts[j as int]);
        }
        j = j + 1;
    }
    proof {
        assert(texts_of(transcripts@).take(n as int) =~= texts_of(transcripts@));
    }
    Ok(out)
}

/// Stitching is deterministic: the same ordered transcript texts always
/// yield the same output, character for character.
pub proof fn lemma_stitch_deterministic(a: Seq<Seq<char>>, b: Seq<Seq<char>>)
    requires
        a == b,
    ensures
        stitched(a) == stitched(b),
{
}

/// A single transcript is stitched to exactly its own text: no trimming is
/// applied when there is no neighbor to overlap with.
pub proof fn lemma_stitch_single(t: Seq<char>)
    ensures
        stitched(seq![t]) == t,
{
}

} // verus!
