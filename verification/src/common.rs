//! Small shared arithmetic helpers.

use vstd::prelude::*;

verus! {

/// The number of set bits in a 16-bit word.
pub open spec fn count_ones(v: u16) -> int
    decreases v,
{
    if v == 0 {
        0
    } else {
        (if v % 2 == 1 {
            1int
        } else {
            0int
        }) + count_ones(v / 2)
    }
}

/// The number of set bits is non-negative and never exceeds the value.
proof fn lemma_count_ones_bounds(v: u16)
    ensures
        0 <= count_ones(v) <= v,
    decreases v,
{
    if v != 0 {
        lemma_count_ones_bounds(v / 2);
    }
}

/// Counts the set bits of a 16-bit word.
pub fn count_bit(v: u16) -> (r: i32)
    ensures
        r == count_ones(v),
{
    let ghost v0 = v;
    let mut c: i32 = 0;
    let mut v = v;
    proof {
        lemma_count_ones_bounds(v0);
        lemma_count_ones_bounds(v);
    }
    while v != 0
        invariant
            c + count_ones(v) == count_ones(v0),
            0 <= c <= 0xffff,
            0 <= count_ones(v),
            count_ones(v0) <= 0xffff,
        decreases v,
    {
        proof {
            assert((v & 0x1 != 0) == (v % 2 == 1) && (v >> 1) == v / 2) by (bit_vector);
            lemma_count_ones_bounds(v / 2);
        }
        if v & 0x1 != 0 {
            c += 1;
        }
        v >>= 1;
    }
    c
}

} // verus!
