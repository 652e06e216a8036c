//! A cheap fingerprint of shader source text, used to tell whether the text
//! in the editor changed since it was last applied.
use vstd::prelude::*;
use vstd::std_specs::iter::IteratorSpec;

verus! {

/// The sum of every character's code point times its position, counting
/// from one.
pub open spec fn weighted_sum(s: Seq<char>) -> int
    decreases s.len(),
{
    if s.len() == 0 {
        0
    } else {
        weighted_sum(s.drop_last()) + (s.last() as u64) as int * s.len()
    }
}

/// The fingerprint of `s`: its weighted sum, modulo 2^64.
pub open spec fn checksum_of(s: Seq<char>) -> u64 {
    (weighted_sum(s) % 0x1_0000_0000_0000_0000) as u64
}

/// The fingerprint of `s`, computed with wrapping arithmetic.
pub fn simple_checksum(s: &str) -> (r: u64)
    requires
        s@.len() < u64::MAX,
    ensures
        r == checksum_of(s@),
{
    let mut hash: u64 = 0;
    let mut chars = s.chars();
    proof {
        vstd::string::axiom_spec_iter(s);
    }
    let mut i: u64 = 0;
    loop
        invariant_except_break
            chars.remaining() == s@.skip(i as int),
        invariant
            s@.len() < u64::MAX,
            i <= s@.len(),
            chars.obeys_prophetic_iter_laws(),
            hash == checksum_of(s@.take(i as int)),
        ensures
            hash == checksum_of(s@),
        decreases s@.len() - i,
    {
        let ghost before = chars.remaining();
        match chars.next() {
            Some(c) => {
                assert(before.len() > 0);
                assert(s@.skip(i as int).len() == s@.len() - i);
                let ghost prefix = s@.take(i as int);
                let weight: u64 = i + 1;
                let code: u64 = #[verifier::truncate] (c as u64);
                let term = code.wrapping_mul(weight);
                proof {
                    assert(s@.take(i + 1).drop_last() == prefix);
                    assert(s@[i as int] == c);
                    assert(s@.take(i + 1).last() == c);
                    lemma_step(weighted_sum(prefix), code as int, weight as int);
                    assert(s@.skip(i + 1) == s@.skip(i as int).drop_first());
                }
                hash = hash.wrapping_add(term);
                i = i + 1;
            },
            None => {
                assert(before.len() == 0);
                assert(s@.skip(i as int).len() == s@.len() - i);
                assert(s@.take(i as int) == s@);
                break;
            },
        }
    }
    hash
}

proof fn lemma_step(w: int, c: int, k: int)
    requires
        0 <= c,
        0 <= k,
    ensures
        ((w % 0x1_0000_0000_0000_0000) + ((c * k) % 0x1_0000_0000_0000_0000))
            % 0x1_0000_0000_0000_0000 == (w + c * k) % 0x1_0000_0000_0000_0000,
{
    vstd::arithmetic::div_mod::lemma_add_mod_noop(w, c * k, 0x1_0000_0000_0000_0000);
}

} // verus!
