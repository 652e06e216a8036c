//! Keyframe lookup of curves.
//!
//! A curve holds keyframes of a value, a position and an optional easing,
//! kept sorted by position. Positions are `f32`s, read here through their
//! bit patterns. This module orders the keyframes, finds the first one that
//! lies past a sample, and picks from it the segment that the sample blends;
//! the blend itself is left to the caller's arithmetic.
use vstd::prelude::*;

verus! {

/// What a curve sample is taken from.
#[derive(Debug, Clone, Copy, PartialEq, Eq, Structural)]
pub enum CurveSegment {
    /// The value of the first keyframe.
    Start,
    /// The value of the last keyframe.
    End,
    /// A blend between keyframe `left` and keyframe `right`, eased by the
    /// easing of `right`.
    Between { left: usize, right: usize },
}

/// The segment that a sample blends, from the index of the first keyframe
/// past it.
pub open spec fn segment_of(first_after: Option<usize>) -> CurveSegment {
    match first_after {
        None => CurveSegment::End,
        Some(i) => if i == 0 {
            CurveSegment::Start
        } else {
            CurveSegment::Between { left: (i - 1) as usize, right: i }
        },
    }
}

/// Picks the segment of a sample given the index of the first keyframe
/// whose position lies past it, if any. Before every keyframe the sample
/// takes the first value; past every keyframe, the last one; otherwise it
/// blends the keyframe before that index with the keyframe at it.
pub fn segment_for(first_after: Option<usize>) -> (r: CurveSegment)
    ensures
        r == segment_of(first_after),
{
    match first_after {
        None => CurveSegment::End,
        Some(right) => {
            let left = right.saturating_sub(1);
            if right == left {
                CurveSegment::Start
            } else {
                CurveSegment::Between { left, right }
            }
        },
    }
}

/// The place of an `f32` in the IEEE 754 total order, from its bit pattern:
/// numbers with the sign bit clear keep their pattern as key, and those with
/// it set count down from -1 as their magnitude grows, so that -0.0 comes
/// just before +0.0 and NaNs sit at both ends by their sign.
pub open spec fn total_order_key(bits: u32) -> int {
    if bits < 0x8000_0000 {
        bits as int
    } else {
        0x7FFF_FFFF - bits as int
    }
}

/// Whether the `f32` with bit pattern `bits` is a NaN: all exponent bits
/// set and a fraction other than zero.
pub open spec fn is_nan_bits(bits: u32) -> bool {
    bits % 0x8000_0000 > 0x7F80_0000
}

/// Whether the `f32` with bit pattern `bits` is +0.0 or -0.0.
pub open spec fn is_zero_bits(bits: u32) -> bool {
    bits % 0x8000_0000 == 0
}

/// Whether the `f32` with bit pattern `a` compares greater than the one
/// with bit pattern `b` under `>`: never for a NaN, never between the two
/// zeros, and otherwise as in the total order.
pub open spec fn float_gt(a: u32, b: u32) -> bool {
    &&& !is_nan_bits(a)
    &&& !is_nan_bits(b)
    &&& !(is_zero_bits(a) && is_zero_bits(b))
    &&& total_order_key(a) > total_order_key(b)
}

/// The index of the first keyframe whose position lies past the sample.
pub open spec fn is_first_after(position_bits: Seq<u32>, sample_bits: u32, r: Option<usize>) -> bool {
    match r {
        None => forall|j: int| 0 <= j < position_bits.len() ==> !float_gt(#[trigger] position_bits[j], sample_bits),
        Some(i) => {
            &&& i < position_bits.len()
            &&& float_gt(position_bits[i as int], sample_bits)
            &&& forall|j: int| 0 <= j < i ==> !float_gt(#[trigger] position_bits[j], sample_bits)
        },
    }
}

fn gt_bits(a: u32, b: u32) -> (r: bool)
    ensures
        r == float_gt(a, b),
{
    let ma = a % 0x8000_0000;
    let mb = b % 0x8000_0000;
    if ma > 0x7F80_0000 || mb > 0x7F80_0000 {
        false
    } else if ma == 0 && mb == 0 {
        false
    } else {
        order_key(a) > order_key(b)
    }
}

/// Finds the first keyframe, in the stored order, whose position compares
/// greater than the sample position, each given as the bit pattern of an
/// `f32`.
pub fn first_after(position_bits: &Vec<u32>, sample_bits: u32) -> (r: Option<usize>)
    ensures
        is_first_after(position_bits@, sample_bits, r),
{
    let mut i: usize = 0;
    while i < position_bits.len()
        invariant
            i <= position_bits@.len(),
            forall|j: int| 0 <= j < i ==> !float_gt(#[trigger] position_bits@[j], sample_bits),
        decreases position_bits@.len() - i,
    {
        if gt_bits(position_bits[i], sample_bits) {
            return Some(i);
        }
        i = i + 1;
    }
    None
}

/// A curve holds its last keyframe's value at and past that keyframe: on
/// keyframes sorted by position, none of them NaN, a sample that the last
/// position does not exceed finds no keyframe past it, and so takes the
/// last value.
pub proof fn lemma_sample_past_last_keyframe_takes_end(
    position_bits: Seq<u32>,
    sample_bits: u32,
    r: Option<usize>,
)
    requires
        position_bits.len() > 0,
        forall|i: int, j: int|
            0 <= i < j < position_bits.len() ==> total_order_key(#[trigger] position_bits[i])
                <= total_order_key(#[trigger] position_bits[j]),
        forall|i: int| 0 <= i < position_bits.len() ==> !is_nan_bits(#[trigger] position_bits[i]),
        !float_gt(position_bits.last(), sample_bits),
        is_first_after(position_bits, sample_bits, r),
    ensures
        r is None,
        segment_of(r) == CurveSegment::End,
{
    let last = position_bits.len() - 1;
    if let Some(i) = r {
        let k = i as int;
        assert(k == last || total_order_key(position_bits[k]) <= total_order_key(position_bits[last]));
        assert(!is_nan_bits(position_bits[k]));
        assert(!is_nan_bits(position_bits[last]));
    }
}

/// Whether keyframe `a` goes before keyframe `b`: by the total order of
/// their positions, and by their index where the positions are the same.
pub open spec fn goes_before(position_bits: Seq<u32>, a: int, b: int) -> bool {
    let ka = total_order_key(position_bits[a]);
    let kb = total_order_key(position_bits[b]);
    ka < kb || (ka == kb && a < b)
}

fn order_key(bits: u32) -> (k: i64)
    ensures
        k == total_order_key(bits),
{
    if bits < 0x8000_0000 {
        bits as i64
    } else {
        0x7FFF_FFFF - bits as i64
    }
}

/// The order of a curve's keyframes, given the bit patterns of their
/// positions: ascending by position in the total order, keyframes with the
/// same position in the order they were added. Entry `i` of the result is
/// the index of the keyframe that goes to place `i`; as the order is strict
/// and every entry is below the length, each index appears exactly once.
pub fn keyframe_order(position_bits: &Vec<u32>) -> (r: Vec<usize>)
    ensures
        r@.len() == position_bits@.len(),
        forall|i: int| 0 <= i < r@.len() ==> #[trigger] r@[i] < position_bits@.len(),
        forall|k: usize| k < position_bits@.len() ==> r@.contains(k),
        forall|i: int, j: int|
            0 <= i < j < r@.len() ==> goes_before(position_bits@, #[trigger] r@[i] as int, #[trigger] r@[j] as int),
{
    let mut order: Vec<usize> = Vec::new();
    let mut n: usize = 0;
    while n < position_bits.len()
        invariant
            n <= position_bits@.len(),
            order@.len() == n,
            forall|i: int| 0 <= i < order@.len() ==> #[trigger] order@[i] < n,
            forall|k: usize| k < n ==> order@.contains(k),
            forall|i: int, j: int|
                0 <= i < j < order@.len() ==> goes_before(position_bits@, #[trigger] order@[i] as int, #[trigger] order@[j] as int),
        decreases position_bits@.len() - n,
    {
        let key = order_key(position_bits[n]);
        let mut pos: usize = 0;
        while pos < order.len() && order_key(position_bits[order[pos]]) <= key
            invariant
                n < position_bits@.len(),
                order@.len() == n,
                pos <= order@.len(),
                key == total_order_key(position_bits@[n as int]),
                forall|i: int| 0 <= i < order@.len() ==> #[trigger] order@[i] < n,
                forall|i: int|
                    0 <= i < pos ==> total_order_key(position_bits@[#[trigger] order@[i] as int]) <= key,
            decreases order@.len() - pos,
        {
            pos = pos + 1;
        }
        let ghost before = order@;
        order.insert(pos, n);
        proof {
            assert forall|i: int, j: int|
                0 <= i < j < order@.len() implies goes_before(
                position_bits@,
                #[trigger] order@[i] as int,
                #[trigger] order@[j] as int,
            ) by {
                if j < pos {
                    assert(order@[i] == before[i] && order@[j] == before[j]);
                } else if j == pos {
                    assert(order@[i] == before[i]);
                } else if i == pos {
                    assert(order@[j] == before[j - 1]);
                    assert(goes_before(position_bits@, before[pos as int] as int, before[j - 1] as int) || j - 1 == pos);
                } else if i < pos {
                    assert(order@[i] == before[i] && order@[j] == before[j - 1]);
                } else {
                    assert(order@[i] == before[i - 1] && order@[j] == before[j - 1]);
                }
            }
            assert forall|k: usize| k < n + 1 implies order@.contains(k) by {
                if k == n {
                    assert(order@[pos as int] == n);
                } else {
                    assert(before.contains(k));
                    let w = choose|w: int| 0 <= w < before.len() && before[w] == k;
                    if w < pos {
                        assert(order@[w] == k);
                    } else {
                        assert(order@[w + 1] == k);
                    }
                }
            }
        }
        n = n + 1;
    }
    order
}

} // verus!
