use vstd::prelude::*;
use super::gf256::{gf_inv, inv, lemma_gf_inv_involution};

verus! {

/// Rotation of a byte one bit to the left.
pub open spec fn rotl_spec(v: u8) -> u8 {
    (v << 1) | (v >> 7)
}

/// The S-box affine map: `v` XOR its four successive left rotations, XOR 0x63.
pub open spec fn affine_spec(v: u8) -> u8 {
    v ^ rotl_spec(v) ^ rotl_spec(rotl_spec(v)) ^ rotl_spec(rotl_spec(rotl_spec(v))) ^ rotl_spec(
        rotl_spec(rotl_spec(rotl_spec(v))),
    ) ^ 0x63
}

/// The inverse affine map: the rotations by 1, 3 and 6, XOR 0x05.
pub open spec fn inv_affine_spec(v: u8) -> u8 {
    rotl_spec(v) ^ rotl_spec(rotl_spec(rotl_spec(v))) ^ rotl_spec(
        rotl_spec(rotl_spec(rotl_spec(rotl_spec(rotl_spec(v))))),
    ) ^ 0x05
}

/// The AES S-box: inversion in GF(2^8) followed by the affine map.
#[verifier::opaque]
pub open spec fn sbox_spec(v: u8) -> u8 {
    affine_spec(gf_inv(v))
}

/// The inverse S-box: the inverse affine map followed by inversion.
#[verifier::opaque]
pub open spec fn inv_sbox_spec(v: u8) -> u8 {
    gf_inv(inv_affine_spec(v))
}

proof fn lemma_rotl_bits(v: u8)
    by (bit_vector)
    ensures
        v & 0x80 != 0 ==> rotl_spec(v) == (v << 1) | 0x01,
        v & 0x80 == 0 ==> rotl_spec(v) == v << 1,
{
}

/// The two affine maps undo each other.
pub proof fn lemma_affine_inverse(v: u8)
    by (bit_vector)
    ensures
        inv_affine_spec(affine_spec(v)) == v,
        affine_spec(inv_affine_spec(v)) == v,
{
}

/// The inverse S-box undoes the S-box, and the other way round.
pub proof fn lemma_sbox_inverse(v: u8)
    ensures
        inv_sbox_spec(sbox_spec(v)) == v,
        sbox_spec(inv_sbox_spec(v)) == v,
{
    reveal(sbox_spec);
    reveal(inv_sbox_spec);
    lemma_affine_inverse(gf_inv(v));
    lemma_gf_inv_involution(v);
    lemma_affine_inverse(v);
    lemma_gf_inv_involution(inv_affine_spec(v));
}

/// Rotates a byte circularly by one bit to the left.
pub fn rotl(value: u8) -> (r: u8)
    ensures
        r == rotl_spec(value),
{
    proof {
        lemma_rotl_bits(value);
    }
    if value & 0x80 != 0 {
        (value << 1) | 0x01
    } else {
        value << 1
    }
}

/// The S-box affine transformation: XOR of `value` with its four successive
/// rotations, then XOR with the constant 0x63.
pub fn affine_transform(value: u8) -> (r: u8)
    ensures
        r == affine_spec(value),
{
    let r1 = rotl(value);
    let r2 = rotl(r1);
    let r3 = rotl(r2);
    let r4 = rotl(r3);

    value ^ r1 ^ r2 ^ r3 ^ r4 ^ 0x63
}

/// Computes the S-box value of a byte: inversion in GF(2^8), then the affine
/// transformation.
pub fn sbox(value: u8) -> (r: u8)
    ensures
        r == sbox_spec(value),
{
    proof {
        reveal(sbox_spec);
    }
    affine_transform(inv(value))
}

} // verus!
