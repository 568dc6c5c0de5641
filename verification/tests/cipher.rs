use aes_rust_lab::aes_core::cipher::{encrypt, round_key};
use aes_rust_lab::aes_core::decrypt::decrypt;
use aes_rust_lab::aes_core::key_expansion::key_expansion;

/// encrypt on the FIPS-197 (Appendix B) test vector.
#[test]
fn test_nist_vector() {
    let key: [u8; 16] = [
        0x00, 0x01, 0x02, 0x03, 0x04, 0x05, 0x06, 0x07, 0x08, 0x09, 0x0a, 0x0b, 0x0c, 0x0d,
        0x0e, 0x0f,
    ];
    let plaintext: [u8; 16] = [
        0x00, 0x11, 0x22, 0x33, 0x44, 0x55, 0x66, 0x77, 0x88, 0x99, 0xaa, 0xbb, 0xcc, 0xdd,
        0xee, 0xff,
    ];
    let expected: [u8; 16] = [
        0x69, 0xc4, 0xe0, 0xd8, 0x6a, 0x7b, 0x04, 0x30, 0xd8, 0xcd, 0xb7, 0x80, 0x70, 0xb4,
        0xc5, 0x5a,
    ];

    let result = encrypt(plaintext, key);

    assert_eq!(result, expected);
}

/// Decryption undoes encryption.
#[test]
fn test_decrypt_cancels_encrypt() {
    let key: [u8; 16] = [
        0x00, 0x01, 0x02, 0x03,
        0x04, 0x05, 0x06, 0x07,
        0x08, 0x09, 0x0a, 0x0b,
        0x0c, 0x0d, 0x0e, 0x0f,
    ];

    let plaintext: [u8; 16] = [
        0x00, 0x11, 0x22, 0x33,
        0x44, 0x55, 0x66, 0x77,
        0x88, 0x99, 0xaa, 0xbb,
        0xcc, 0xdd, 0xee, 0xff,
    ];

    let ciphertext = encrypt(plaintext, key);
    let decrypted = decrypt(ciphertext, key);

    assert_eq!(decrypted, plaintext);
}

#[test]
fn test_decrypt_nist_vector() {
    let key: [u8; 16] = [
        0x00, 0x01, 0x02, 0x03, 0x04, 0x05, 0x06, 0x07, 0x08, 0x09, 0x0a, 0x0b, 0x0c, 0x0d,
        0x0e, 0x0f,
    ];
    let ciphertext: [u8; 16] = [
        0x69, 0xc4, 0xe0, 0xd8, 0x6a, 0x7b, 0x04, 0x30, 0xd8, 0xcd, 0xb7, 0x80, 0x70, 0xb4,
        0xc5, 0x5a,
    ];
    let expected: [u8; 16] = [
        0x00, 0x11, 0x22, 0x33, 0x44, 0x55, 0x66, 0x77, 0x88, 0x99, 0xaa, 0xbb, 0xcc, 0xdd,
        0xee, 0xff,
    ];
    assert_eq!(decrypt(ciphertext, key), expected);
}

#[test]
fn test_fips_appendix_b_vector() {
    let key: [u8; 16] = [
        0x2b, 0x7e, 0x15, 0x16, 0x28, 0xae, 0xd2, 0xa6, 0xab, 0xf7, 0x15, 0x88, 0x09, 0xcf,
        0x4f, 0x3c,
    ];
    let plaintext: [u8; 16] = [
        0x32, 0x43, 0xf6, 0xa8, 0x88, 0x5a, 0x30, 0x8d, 0x31, 0x31, 0x98, 0xa2, 0xe0, 0x37,
        0x07, 0x34,
    ];
    let expected: [u8; 16] = [
        0x39, 0x25, 0x84, 0x1d, 0x02, 0xdc, 0x09, 0xfb, 0xdc, 0x11, 0x85, 0x97, 0x19, 0x6a,
        0x0b, 0x32,
    ];
    assert_eq!(encrypt(plaintext, key), expected);
    assert_eq!(decrypt(expected, key), plaintext);
}

#[test]
fn test_encrypt_decrypt_many_blocks() {
    let mut key = [0u8; 16];
    let mut block = [0u8; 16];
    for round in 0..20u8 {
        for i in 0..16 {
            key[i] = key[i].wrapping_mul(31).wrapping_add(round ^ (i as u8));
            block[i] = block[i].wrapping_mul(17).wrapping_add(round.wrapping_add(3 * i as u8));
        }
        assert_eq!(decrypt(encrypt(block, key), key), block);
        assert_eq!(encrypt(decrypt(block, key), key), block);
    }
}

#[test]
fn test_round_key_columns_are_schedule_words() {
    let key: [u8; 16] = [
        0x00, 0x01, 0x02, 0x03, 0x04, 0x05, 0x06, 0x07, 0x08, 0x09, 0x0a, 0x0b, 0x0c, 0x0d,
        0x0e, 0x0f,
    ];
    let words = key_expansion(key);
    let rk = round_key(&words, 1);
    assert_eq!(rk.bytes[0][0], 0xd6);
    assert_eq!(rk.bytes[1][0], 0xaa);
    assert_eq!(rk.bytes[2][0], 0x74);
    assert_eq!(rk.bytes[3][0], 0xfd);
    let last = round_key(&words, 10);
    assert_eq!(last.bytes[0][3], 0x4d);
    assert_eq!(last.bytes[3][3], 0xc5);
}
