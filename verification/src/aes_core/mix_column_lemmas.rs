use vstd::prelude::*;
use super::gf256::gf_mul;

verus! {

// Each lemma states, for one row, that the InvMixColumns matrix undoes the
// MixColumns matrix on a column (or the other way round).

#[verifier::rlimit(100)]
pub(crate) proof fn lemma_mix_then_inv_row0(a0: u8, a1: u8, a2: u8, a3: u8, b0: u8, b1: u8, b2: u8, b3: u8)
    by (bit_vector)
    requires
        b0 == gf_mul(2, a0) ^ gf_mul(3, a1) ^ a2 ^ a3,
        b1 == a0 ^ gf_mul(2, a1) ^ gf_mul(3, a2) ^ a3,
        b2 == a0 ^ a1 ^ gf_mul(2, a2) ^ gf_mul(3, a3),
        b3 == gf_mul(3, a0) ^ a1 ^ a2 ^ gf_mul(2, a3),
    ensures
        gf_mul(14, b0) ^ gf_mul(11, b1) ^ gf_mul(13, b2) ^ gf_mul(9, b3) == a0,
{
}

#[verifier::rlimit(100)]
pub(crate) proof fn lemma_mix_then_inv_row1(a0: u8, a1: u8, a2: u8, a3: u8, b0: u8, b1: u8, b2: u8, b3: u8)
    by (bit_vector)
    requires
        b0 == gf_mul(2, a0) ^ gf_mul(3, a1) ^ a2 ^ a3,
        b1 == a0 ^ gf_mul(2, a1) ^ gf_mul(3, a2) ^ a3,
        b2 == a0 ^ a1 ^ gf_mul(2, a2) ^ gf_mul(3, a3),
        b3 == gf_mul(3, a0) ^ a1 ^ a2 ^ gf_mul(2, a3),
    ensures
        gf_mul(9, b0) ^ gf_mul(14, b1) ^ gf_mul(11, b2) ^ gf_mul(13, b3) == a1,
{
}

#[verifier::rlimit(100)]
pub(crate) proof fn lemma_mix_then_inv_row2(a0: u8, a1: u8, a2: u8, a3: u8, b0: u8, b1: u8, b2: u8, b3: u8)
    by (bit_vector)
    requires
        b0 == gf_mul(2, a0) ^ gf_mul(3, a1) ^ a2 ^ a3,
        b1 == a0 ^ gf_mul(2, a1) ^ gf_mul(3, a2) ^ a3,
        b2 == a0 ^ a1 ^ gf_mul(2, a2) ^ gf_mul(3, a3),
        b3 == gf_mul(3, a0) ^ a1 ^ a2 ^ gf_mul(2, a3),
    ensures
        gf_mul(13, b0) ^ gf_mul(9, b1) ^ gf_mul(14, b2) ^ gf_mul(11, b3) == a2,
{
}

#[verifier::rlimit(100)]
pub(crate) proof fn lemma_mix_then_inv_row3(a0: u8, a1: u8, a2: u8, a3: u8, b0: u8, b1: u8, b2: u8, b3: u8)
    by (bit_vector)
    requires
        b0 == gf_mul(2, a0) ^ gf_mul(3, a1) ^ a2 ^ a3,
        b1 == a0 ^ gf_mul(2, a1) ^ gf_mul(3, a2) ^ a3,
        b2 == a0 ^ a1 ^ gf_mul(2, a2) ^ gf_mul(3, a3),
        b3 == gf_mul(3, a0) ^ a1 ^ a2 ^ gf_mul(2, a3),
    ensures
        gf_mul(11, b0) ^ gf_mul(13, b1) ^ gf_mul(9, b2) ^ gf_mul(14, b3) == a3,
{
}

#[verifier::rlimit(100)]
pub(crate) proof fn lemma_inv_then_mix_row0(a0: u8, a1: u8, a2: u8, a3: u8, b0: u8, b1: u8, b2: u8, b3: u8)
    by (bit_vector)
    requires
        b0 == gf_mul(14, a0) ^ gf_mul(11, a1) ^ gf_mul(13, a2) ^ gf_mul(9, a3),
        b1 == gf_mul(9, a0) ^ gf_mul(14, a1) ^ gf_mul(11, a2) ^ gf_mul(13, a3),
        b2 == gf_mul(13, a0) ^ gf_mul(9, a1) ^ gf_mul(14, a2) ^ gf_mul(11, a3),
        b3 == gf_mul(11, a0) ^ gf_mul(13, a1) ^ gf_mul(9, a2) ^ gf_mul(14, a3),
    ensures
        gf_mul(2, b0) ^ gf_mul(3, b1) ^ b2 ^ b3 == a0,
{
}

#[verifier::rlimit(100)]
pub(crate) proof fn lemma_inv_then_mix_row1(a0: u8, a1: u8, a2: u8, a3: u8, b0: u8, b1: u8, b2: u8, b3: u8)
    by (bit_vector)
    requires
        b0 == gf_mul(14, a0) ^ gf_mul(11, a1) ^ gf_mul(13, a2) ^ gf_mul(9, a3),
        b1 == gf_mul(9, a0) ^ gf_mul(14, a1) ^ gf_mul(11, a2) ^ gf_mul(13, a3),
        b2 == gf_mul(13, a0) ^ gf_mul(9, a1) ^ gf_mul(14, a2) ^ gf_mul(11, a3),
        b3 == gf_mul(11, a0) ^ gf_mul(13, a1) ^ gf_mul(9, a2) ^ gf_mul(14, a3),
    ensures
        b0 ^ gf_mul(2, b1) ^ gf_mul(3, b2) ^ b3 == a1,
{
}

#[verifier::rlimit(100)]
pub(crate) proof fn lemma_inv_then_mix_row2(a0: u8, a1: u8, a2: u8, a3: u8, b0: u8, b1: u8, b2: u8, b3: u8)
    by (bit_vector)
    requires
        b0 == gf_mul(14, a0) ^ gf_mul(11, a1) ^ gf_mul(13, a2) ^ gf_mul(9, a3),
        b1 == gf_mul(9, a0) ^ gf_mul(14, a1) ^ gf_mul(11, a2) ^ gf_mul(13, a3),
        b2 == gf_mul(13, a0) ^ gf_mul(9, a1) ^ gf_mul(14, a2) ^ gf_mul(11, a3),
        b3 == gf_mul(11, a0) ^ gf_mul(13, a1) ^ gf_mul(9, a2) ^ gf_mul(14, a3),
    ensures
        b0 ^ b1 ^ gf_mul(2, b2) ^ gf_mul(3, b3) == a2,
{
}

#[verifier::rlimit(100)]
pub(crate) proof fn lemma_inv_then_mix_row3(a0: u8, a1: u8, a2: u8, a3: u8, b0: u8, b1: u8, b2: u8, b3: u8)
    by (bit_vector)
    requires
        b0 == gf_mul(14, a0) ^ gf_mul(11, a1) ^ gf_mul(13, a2) ^ gf_mul(9, a3),
        b1 == gf_mul(9, a0) ^ gf_mul(14, a1) ^ gf_mul(11, a2) ^ gf_mul(13, a3),
        b2 == gf_mul(13, a0) ^ gf_mul(9, a1) ^ gf_mul(14, a2) ^ gf_mul(11, a3),
        b3 == gf_mul(11, a0) ^ gf_mul(13, a1) ^ gf_mul(9, a2) ^ gf_mul(14, a3),
    ensures
        gf_mul(3, b0) ^ b1 ^ b2 ^ gf_mul(2, b3) == a3,
{
}

} // verus!
