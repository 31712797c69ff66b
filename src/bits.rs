//! Single-bit access to 32-bit register words.

use vstd::prelude::*;

verus! {

/// Bit `i` of the word `w`.
pub open spec fn bit_of(w: u32, i: u32) -> bool {
    (w >> i) & 1u32 == 1u32
}

/// Setting, clearing and flipping bit `b` of `w` changes bit `b` alone;
/// a mask of bit `b` tests bit `b`.
pub proof fn lemma_bit_ops(w: u32, b: u32, i: u32)
    by (bit_vector)
    requires
        b < 32,
        i < 32,
    ensures
        bit_of(w | (1u32 << b), i) == (i == b || bit_of(w, i)),
        bit_of(w & !(1u32 << b), i) == (i != b && bit_of(w, i)),
        bit_of(w ^ (1u32 << b), i) == ((i == b) != bit_of(w, i)),
        ((w & (1u32 << b)) == (1u32 << b)) == bit_of(w, b),
        !bit_of(0u32, i),
{
}

} // verus!
