use vstd::prelude::*;
use super::gf256::inv;
use super::sbox::{inv_affine_spec, inv_sbox_spec, rotl};

verus! {

/// Inverse of the S-box affine transformation.
pub fn inv_affine_transform(value: u8) -> (r: u8)
    ensures
        r == inv_affine_spec(value),
{
    let r1 = rotl(value);
    let r3 = rotl(rotl(r1));
    let r6 = rotl(rotl(rotl(r3)));
    r1 ^ r3 ^ r6 ^ 0x05
}

/// Computes the inverse S-box value of a byte (used by InvSubBytes).
pub fn inv_sbox(value: u8) -> (r: u8)
    ensures
        r == inv_sbox_spec(value),
{
    proof {
        reveal(inv_sbox_spec);
    }
    inv(inv_affine_transform(value))
}

} // verus!
