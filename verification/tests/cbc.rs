use aes_rust_lab::mods::cbc::{cbc_decrypt, cbc_encrypt, inv_pad, pad};

const KEY: [u8; 16] = [
    0x2b, 0x7e, 0x15, 0x16,
    0x28, 0xae, 0xd2, 0xa6,
    0xab, 0xf7, 0x15, 0x88,
    0x09, 0xcf, 0x4f, 0x3c,
];

const IV: [u8; 16] = [
    0x00, 0x01, 0x02, 0x03,
    0x04, 0x05, 0x06, 0x07,
    0x08, 0x09, 0x0a, 0x0b,
    0x0c, 0x0d, 0x0e, 0x0f,
];

const NIST_PLAINTEXT: [u8; 64] = [
    0x6b, 0xc1, 0xbe, 0xe2, 0x2e, 0x40, 0x9f, 0x96,
    0xe9, 0x3d, 0x7e, 0x11, 0x73, 0x93, 0x17, 0x2a,

    0xae, 0x2d, 0x8a, 0x57, 0x1e, 0x03, 0xac, 0x9c,
    0x9e, 0xb7, 0x6f, 0xac, 0x45, 0xaf, 0x8e, 0x51,

    0x30, 0xc8, 0x1c, 0x46, 0xa3, 0x5c, 0xe4, 0x11,
    0xe5, 0xfb, 0xc1, 0x19, 0x1a, 0x0a, 0x52, 0xef,

    0xf6, 0x9f, 0x24, 0x45, 0xdf, 0x4f, 0x9b, 0x17,
    0xad, 0x2b, 0x41, 0x7b, 0xe6, 0x6c, 0x37, 0x10,
];

const NIST_CIPHERTEXT: [u8; 64] = [
    0x76, 0x49, 0xab, 0xac, 0x81, 0x19, 0xb2, 0x46,
    0xce, 0xe9, 0x8e, 0x9b, 0x12, 0xe9, 0x19, 0x7d,

    0x50, 0x86, 0xcb, 0x9b, 0x50, 0x72, 0x19, 0xee,
    0x95, 0xdb, 0x11, 0x3a, 0x91, 0x76, 0x78, 0xb2,

    0x73, 0xbe, 0xd6, 0xb8, 0xe3, 0xc1, 0x74, 0x3b,
    0x71, 0x16, 0xe6, 0x9e, 0x22, 0x22, 0x95, 0x16,

    0x3f, 0xf1, 0xca, 0xa1, 0x68, 0x1f, 0xac, 0x09,
    0x12, 0x0e, 0xca, 0x30, 0x75, 0x86, 0xe1, 0xa7,
];

/// The first four CBC blocks match the NIST AES-128-CBC vector; PKCS#7 adds
/// a fifth, full block of padding.
#[test]
fn test_cbc_encrypt_nist_vector() {
    let key: [u8; 16] = KEY;
    let iv: [u8; 16] = IV;
    let plaintext: [u8; 64] = NIST_PLAINTEXT;
    let expected_first_4_blocks: [u8; 64] = NIST_CIPHERTEXT;

    let ciphertext = cbc_encrypt(&plaintext, iv, key);

    assert_eq!(
        &ciphertext[0..64],
        &expected_first_4_blocks[..]
    );
}

/// A ciphertext without a valid PKCS#7 padding is rejected.
#[test]
fn test_cbc_decrypt_rejects_invalid_padding() {
    let key: [u8; 16] = KEY;
    let iv: [u8; 16] = IV;
    let ciphertext: [u8; 64] = NIST_CIPHERTEXT;

    let result = cbc_decrypt(&ciphertext, iv, key);

    assert!(result.is_err());
}

/// Encrypting then decrypting gives the plaintext back.
#[test]
fn test_cbc_round_trip() {
    let key: [u8; 16] = [
        1, 2, 3, 4,
        5, 6, 7, 8,
        9, 10, 11, 12,
        13, 14, 15, 16,
    ];

    let iv: [u8; 16] = [0; 16];

    let plaintext =
        b"je suis etudiant a l'universite de rennes!";

    let ciphertext = cbc_encrypt(plaintext, iv, key);
    let decrypted = cbc_decrypt(&ciphertext, iv, key).unwrap();

    assert_eq!(decrypted, plaintext);
}

/// A ciphertext whose length is not a multiple of 16 is rejected.
#[test]
fn test_cbc_decrypt_invalid_length() {
    let key: [u8; 16] = [0; 16];
    let iv: [u8; 16] = [0; 16];

    let ciphertext: [u8; 17] = [0; 17];

    let result = cbc_decrypt(&ciphertext, iv, key);

    assert!(result.is_err());
}

/// PKCS#7 adds a full block of padding when the plaintext is already a
/// multiple of 16 bytes.
#[test]
fn test_cbc_encrypt_nist_vector_with_padding() {
    let key: [u8; 16] = KEY;
    let iv: [u8; 16] = IV;
    let plaintext: [u8; 64] = NIST_PLAINTEXT;

    let ciphertext = cbc_encrypt(&plaintext, iv, key);

    assert_eq!(ciphertext.len(), 80);
}

#[test]
fn test_cbc_decrypt_error_messages() {
    let key: [u8; 16] = [0; 16];
    let iv: [u8; 16] = [0; 16];
    assert_eq!(cbc_decrypt(&[], iv, key), Err("ciphertext vide"));
    assert_eq!(cbc_decrypt(&[0u8; 17], iv, key), Err("taille du ciphertext invalide"));
    assert_eq!(cbc_decrypt(&NIST_CIPHERTEXT, IV, KEY), Err("padding invalide"));
}

#[test]
fn test_cbc_decrypt_nist_ciphertext_with_its_padding_block() {
    let ciphertext = cbc_encrypt(&NIST_PLAINTEXT, IV, KEY);
    let decrypted = cbc_decrypt(&ciphertext, IV, KEY).unwrap();
    assert_eq!(decrypted, NIST_PLAINTEXT.to_vec());
}

#[test]
fn test_cbc_round_trip_all_lengths() {
    let key: [u8; 16] = [7; 16];
    let iv: [u8; 16] = [9; 16];
    let mut message = Vec::new();
    for n in 0..50usize {
        let ciphertext = cbc_encrypt(&message, iv, key);
        assert_eq!(ciphertext.len(), (n / 16 + 1) * 16);
        assert_eq!(cbc_decrypt(&ciphertext, iv, key), Ok(message.clone()));
        message.push((n * 13) as u8);
    }
}

#[test]
fn test_cbc_empty_plaintext_is_one_padding_block() {
    let ciphertext = cbc_encrypt(&[], IV, KEY);
    assert_eq!(ciphertext.len(), 16);
    assert_eq!(cbc_decrypt(&ciphertext, IV, KEY), Ok(Vec::new()));
}

#[test]
fn test_pad_values() {
    assert_eq!(pad(&[]), vec![16u8; 16]);
    assert_eq!(pad(&[1, 2, 3]), {
        let mut v = vec![1u8, 2, 3];
        v.extend_from_slice(&[13u8; 13]);
        v
    });
    let fifteen = [0xaau8; 15];
    let mut expected = fifteen.to_vec();
    expected.push(1);
    assert_eq!(pad(&fifteen), expected);
    assert_eq!(pad(&[5u8; 16]).len(), 32);
}

#[test]
fn test_inv_pad_errors() {
    assert_eq!(inv_pad(&[]), Err("padding invalide : données vides"));
    assert_eq!(inv_pad(&[1u8; 15]), Err("padding invalide"));
    let mut zero_pad = [0u8; 16];
    assert_eq!(inv_pad(&zero_pad), Err("padding invalide"));
    zero_pad[15] = 17;
    assert_eq!(inv_pad(&zero_pad), Err("padding invalide"));
    let mut mismatch = [3u8; 16];
    mismatch[14] = 2;
    assert_eq!(inv_pad(&mismatch), Err("padding invalide"));
}

#[test]
fn test_inv_pad_valid() {
    let mut data = [0x41u8; 16];
    data[13] = 3;
    data[14] = 3;
    data[15] = 3;
    assert_eq!(inv_pad(&data), Ok(vec![0x41u8; 13]));
    assert_eq!(inv_pad(&[16u8; 16]), Ok(Vec::new()));
    let message = b"hello world";
    assert_eq!(inv_pad(&pad(message)), Ok(message.to_vec()));
}
