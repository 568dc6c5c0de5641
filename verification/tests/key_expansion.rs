use aes_rust_lab::aes_core::key_expansion::{key_expansion, rot_word, sub_word};

/// Rotation of a 4-byte word.
#[test]
fn test_rot_word() {
    assert_eq!(rot_word([0x0c, 0x0d, 0x0e, 0x0f]), [0x0d, 0x0e, 0x0f, 0x0c]);
}

/// The S-box applied to a word.
#[test]
fn test_sub_word() {
    assert_eq!(sub_word([0x0d, 0x0e, 0x0f, 0x0c]), [0xd7, 0xab, 0x76, 0xfe]);
}

/// RotWord then SubWord.
#[test]
fn test_rot_then_sub_word() {
    let w3 = [0x0c, 0x0d, 0x0e, 0x0f];
    let rotated = rot_word(w3);
    let result = sub_word(rotated);
    assert_eq!(result, [0xd7, 0xab, 0x76, 0xfe]);
}

/// The first four words are the key; W4 is the first derived word.
#[test]
fn test_key_expansion_w4() {
    let key: [u8; 16] = [
        0x00, 0x01, 0x02, 0x03, 0x04, 0x05, 0x06, 0x07, 0x08, 0x09, 0x0a, 0x0b, 0x0c, 0x0d,
        0x0e, 0x0f,
    ];
    let words = key_expansion(key);

    assert_eq!(words[0], [0x00, 0x01, 0x02, 0x03]);
    assert_eq!(words[3], [0x0c, 0x0d, 0x0e, 0x0f]);
    assert_eq!(words[4], [0xd6, 0xaa, 0x74, 0xfd]);
}

/// The last word generated.
#[test]
fn test_key_expansion_last_word() {
    let key: [u8; 16] = [
        0x00, 0x01, 0x02, 0x03, 0x04, 0x05, 0x06, 0x07, 0x08, 0x09, 0x0a, 0x0b, 0x0c, 0x0d,
        0x0e, 0x0f,
    ];
    let words = key_expansion(key);

    assert_eq!(words[43], [0x4d, 0x2b, 0x30, 0xc5]);
}

#[test]
fn test_key_expansion_fips_appendix_a() {
    let key: [u8; 16] = [
        0x2b, 0x7e, 0x15, 0x16, 0x28, 0xae, 0xd2, 0xa6, 0xab, 0xf7, 0x15, 0x88, 0x09, 0xcf,
        0x4f, 0x3c,
    ];
    let words = key_expansion(key);
    assert_eq!(words[4], [0xa0, 0xfa, 0xfe, 0x17]);
    assert_eq!(words[5], [0x88, 0x54, 0x2c, 0xb1]);
    assert_eq!(words[43], [0xb6, 0x63, 0x0c, 0xa6]);
}
