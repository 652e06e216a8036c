//! Layout of the shared instance buffer.
//!
//! Each frame the instances of all spawners are written one after another
//! into one buffer; every spawner with at least one live particle gets the
//! range of that buffer that holds its instances, and draws it.
use vstd::prelude::*;

verus! {

/// The range of the shared instance buffer that one spawner draws.
#[derive(Debug)]
pub struct ParticleInstanceBatch {
    pub range: std::ops::Range<u32>,
}

/// The number of instances of the first `n` spawners.
pub open spec fn instances_before(counts: Seq<usize>, n: int) -> int
    decreases n,
{
    if n <= 0 {
        0
    } else {
        instances_before(counts, n - 1) + counts[n - 1]
    }
}

/// The batch of spawner `i`: the instances that follow those of the
/// spawners before it; none for a spawner without instances.
pub open spec fn batch_of(counts: Seq<usize>, i: int) -> Option<ParticleInstanceBatch> {
    if counts[i] == 0 {
        None
    } else {
        Some(
            ParticleInstanceBatch {
                range: std::ops::Range {
                    start: instances_before(counts, i) as u32,
                    end: instances_before(counts, i + 1) as u32,
                },
            },
        )
    }
}

proof fn lemma_instances_before_monotonic(counts: Seq<usize>, a: int, b: int)
    requires
        0 <= a <= b <= counts.len(),
    ensures
        instances_before(counts, a) <= instances_before(counts, b),
    decreases b - a,
{
    if a < b {
        lemma_instances_before_monotonic(counts, a, b - 1);
    }
}

/// Assigns each spawner, given its number of instances, its range of the
/// shared buffer, in order and without gaps. The whole buffer is indexed
/// by `u32`, so the instances together must fit in one.
pub fn instance_batches(counts: &Vec<usize>) -> (r: Vec<Option<ParticleInstanceBatch>>)
    requires
        instances_before(counts@, counts@.len() as int) <= u32::MAX,
    ensures
        r@.len() == counts@.len(),
        forall|i: int| 0 <= i < counts@.len() ==> #[trigger] r@[i] == batch_of(counts@, i),
{
    let mut batches: Vec<Option<ParticleInstanceBatch>> = Vec::new();
    let mut index: u32 = 0;
    let mut i: usize = 0;
    while i < counts.len()
        invariant
            i <= counts@.len(),
            instances_before(counts@, counts@.len() as int) <= u32::MAX,
            index == instances_before(counts@, i as int),
            batches@.len() == i,
            forall|j: int| 0 <= j < i ==> #[trigger] batches@[j] == batch_of(counts@, j),
        decreases counts@.len() - i,
    {
        proof {
            lemma_instances_before_monotonic(counts@, i + 1, counts@.len() as int);
        }
        let count = counts[i];
        if count == 0 {
            batches.push(None);
        } else {
            let end = index + count as u32;
            batches.push(Some(ParticleInstanceBatch { range: std::ops::Range { start: index, end } }));
            index = end;
        }
        i = i + 1;
    }
    batches
}

/// Consecutive non-empty batches meet: each starts where the instances of
/// the spawners before it end, and ends where those of the next begin.
pub proof fn lemma_batches_are_contiguous(counts: Seq<usize>, i: int)
    requires
        0 <= i < counts.len(),
        counts[i] > 0,
        instances_before(counts, counts.len() as int) <= u32::MAX,
    ensures
        batch_of(counts, i) matches Some(b) && b.range.start as int == instances_before(counts, i)
            && b.range.end as int == b.range.start + counts[i],
{
    lemma_instances_before_monotonic(counts, 0, i);
    lemma_instances_before_monotonic(counts, i + 1, counts.len() as int);
}

} // verus!
