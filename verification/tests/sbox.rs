use aes_rust_lab::aes_core::constants::{INV_SBOX, RCON, SBOX};
use aes_rust_lab::aes_core::inv_sbox::{inv_affine_transform, inv_sbox};
use aes_rust_lab::aes_core::sbox::{affine_transform, rotl, sbox};
use aes_rust_lab::aes_core::gf256::{mul, pow};

/// sbox() recomputes the SBOX table exactly, for all 256 bytes.
#[test]
fn test_sbox() {
    for i in 0..256 {
        assert_eq!(sbox(i as u8), SBOX[i]);
    }
}

/// inv_sbox() recomputes the INV_SBOX table exactly, for all 256 bytes.
#[test]
fn test_inv_sbox() {
    for i in 0..256 {
        assert_eq!(inv_sbox(i as u8), INV_SBOX[i]);
    }
}

#[test]
fn test_rotl() {
    assert_eq!(rotl(0x80), 0x01);
    assert_eq!(rotl(0x01), 0x02);
    assert_eq!(rotl(0xa5), 0x4b);
}

#[test]
fn test_affine_transforms_undo_each_other() {
    for v in 0..=255u8 {
        assert_eq!(inv_affine_transform(affine_transform(v)), v);
        assert_eq!(affine_transform(inv_affine_transform(v)), v);
    }
    assert_eq!(affine_transform(0), 0x63);
    assert_eq!(inv_affine_transform(0x63), 0);
}

#[test]
fn test_sbox_and_inv_sbox_undo_each_other() {
    for v in 0..=255u8 {
        assert_eq!(inv_sbox(sbox(v)), v);
        assert_eq!(sbox(inv_sbox(v)), v);
    }
    assert_eq!(sbox(0x53), 0xed);
    assert_eq!(sbox(0), 0x63);
    assert_eq!(inv_sbox(0x63), 0);
}

#[test]
fn test_rcon_is_powers_of_x() {
    for j in 1..=10usize {
        assert_eq!(RCON[j], pow(2, (j - 1) as u32));
    }
    assert_eq!(RCON[9], mul(0x80, 2));
}
