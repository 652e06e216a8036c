//! Which particles a spawner's bounding box is measured over.
//!
//! Large spawners are sampled: one particle in every `stride` counts, with a
//! stride that grows by one per thousand particles, from one up to ten.
use vstd::prelude::*;

verus! {

/// The sampling stride for a spawner of `particle_count` particles.
pub open spec fn stride_for(particle_count: nat) -> nat {
    let k = particle_count / 1000;
    if k < 1 {
        1
    } else if k > 10 {
        10
    } else {
        k
    }
}

/// The sampling stride for a spawner of `particle_count` particles.
pub fn bounds_stride(particle_count: usize) -> (r: usize)
    ensures
        r as nat == stride_for(particle_count as nat),
        1 <= r <= 10,
{
    let k = particle_count / 1000;
    if k < 1 {
        1
    } else if k > 10 {
        10
    } else {
        k
    }
}

/// The indices of the particles that the bounding box is measured over:
/// every index below `particle_count` that the stride divides, ascending.
pub fn bounds_sample_indices(particle_count: usize) -> (r: Vec<usize>)
    ensures
        forall|j: int|
            0 <= j < r@.len() ==> #[trigger] r@[j] == j * stride_for(particle_count as nat),
        forall|j: int| 0 <= j < r@.len() ==> #[trigger] r@[j] < particle_count,
        r@.len() * stride_for(particle_count as nat) >= particle_count,
{
    let stride = bounds_stride(particle_count);
    let mut indices: Vec<usize> = Vec::new();
    let mut i: usize = 0;
    assert(indices@.len() * stride == 0);
    while i < particle_count
        invariant_except_break
            i == indices@.len() * stride,
        invariant
            1 <= stride <= 10,
            stride as nat == stride_for(particle_count as nat),
            forall|j: int| 0 <= j < indices@.len() ==> #[trigger] indices@[j] == j * stride,
            forall|j: int| 0 <= j < indices@.len() ==> #[trigger] indices@[j] < particle_count,
        ensures
            indices@.len() * stride >= particle_count,
        decreases particle_count - i,
    {
        indices.push(i);
        assert(indices@.len() * stride == i + stride) by (nonlinear_arith)
            requires
                indices@.len() == (indices@.len() - 1) + 1,
                i == (indices@.len() - 1) * stride,
        ;
        if particle_count - i <= stride {
            break;
        }
        i = i + stride;
    }
    indices
}

} // verus!
