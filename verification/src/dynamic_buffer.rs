use vstd::prelude::*;

verus! {

/// The sum of the first `n` chunk lengths.
pub open spec fn sum_of_lengths(chunk_lens: Seq<usize>, n: int) -> int
    decreases n,
{
    if n <= 0 {
        0
    } else {
        sum_of_lengths(chunk_lens, n - 1) + chunk_lens[n - 1]
    }
}

/// Sums of lengths grow with the number of chunks.
pub proof fn lemma_sum_of_lengths_monotonic(chunk_lens: Seq<usize>, m: int, n: int)
    requires
        0 <= m <= n,
    ensures
        sum_of_lengths(chunk_lens, m) <= sum_of_lengths(chunk_lens, n),
    decreases n - m,
{
    if m < n {
        lemma_sum_of_lengths_monotonic(chunk_lens, m, n - 1);
    }
}

/// Where each chunk goes when the chunks are written one after the other,
/// and how many elements they take in all.
pub struct WritePlan {
    /// The element offset at which each chunk is written.
    pub offsets: Vec<usize>,
    /// The number of elements of all chunks together.
    pub total: usize,
    /// The buffer is too small for the chunks and must be replaced.
    pub reallocate: bool,
}

/// Plan writing chunks of the given lengths, one after the other, into a
/// buffer with room for `capacity` elements.
pub fn plan_write(capacity: usize, chunk_lens: &Vec<usize>) -> (plan: WritePlan)
    requires
        sum_of_lengths(chunk_lens@, chunk_lens@.len() as int) <= usize::MAX,
    ensures
        plan.total == sum_of_lengths(chunk_lens@, chunk_lens@.len() as int),
        plan.reallocate == (capacity < plan.total),
        plan.offsets@.len() == chunk_lens@.len(),
        forall|k: int|
            0 <= k < plan.offsets@.len() ==> #[trigger] plan.offsets@[k] == sum_of_lengths(
                chunk_lens@,
                k,
            ),
{
    let mut offsets: Vec<usize> = Vec::with_capacity(chunk_lens.len());
    let mut offset: usize = 0;
    let mut k: usize = 0;
    while k < chunk_lens.len()
        invariant
            k <= chunk_lens@.len(),
            offsets@.len() == k,
            offset == sum_of_lengths(chunk_lens@, k as int),
            sum_of_lengths(chunk_lens@, chunk_lens@.len() as int) <= usize::MAX,
            forall|j: int|
                0 <= j < k ==> #[trigger] offsets@[j] == sum_of_lengths(chunk_lens@, j),
        decreases chunk_lens@.len() - k,
    {
        proof {
            lemma_sum_of_lengths_monotonic(chunk_lens@, k as int + 1, chunk_lens@.len() as int);
        }
        offsets.push(offset);
        offset = offset + chunk_lens[k];
        k = k + 1;
    }
    WritePlan { offsets, total: offset, reallocate: capacity < offset }
}

/// Chunks written by a plan follow one another without gap or overlap and
/// all lie within the total: chunk `k` starts where chunk `k - 1` ends, and
/// ends no later than the total.
pub proof fn law_chunks_are_contiguous(chunk_lens: Seq<usize>, k: int)
    requires
        0 <= k < chunk_lens.len(),
    ensures
        k > 0 ==> sum_of_lengths(chunk_lens, k) == sum_of_lengths(chunk_lens, k - 1)
            + chunk_lens[k - 1],
        sum_of_lengths(chunk_lens, k) + chunk_lens[k] <= sum_of_lengths(
            chunk_lens,
            chunk_lens.len() as int,
        ),
{
    lemma_sum_of_lengths_monotonic(chunk_lens, k + 1, chunk_lens.len() as int);
}

} // verus!
