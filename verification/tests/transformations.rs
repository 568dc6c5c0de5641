use aes_rust_lab::aes_core::gf256::mul;
use aes_rust_lab::aes_core::state::State;

/// Each row is rotated left by its index.
#[test]
fn test_shift_rows() {
    let input: [u8; 16] = [0, 1, 2, 3, 4, 5, 6, 7, 8, 9, 10, 11, 12, 13, 14, 15];
    let mut state = State::from_bytes(input);
    state.shift_rows();
    assert_eq!(state.bytes[0], [0, 4, 8, 12]);
    assert_eq!(state.bytes[1], [5, 9, 13, 1]);
    assert_eq!(state.bytes[2], [10, 14, 2, 6]);
    assert_eq!(state.bytes[3], [15, 3, 7, 11]);
}

/// Substitution on two known bytes (0x53 and 0).
#[test]
fn test_sub_bytes() {
    let input: [u8; 16] = [0x53, 0, 0, 0, 0, 0, 0, 0, 0, 0, 0, 0, 0, 0, 0, 0];
    let mut state = State::from_bytes(input);
    state.sub_bytes();
    assert_eq!(state.bytes[0][0], 0xed);
    assert_eq!(state.bytes[1][0], 0x63);
}

/// First byte of the first column after MixColumns, by the formula.
#[test]
fn test_mix_columns() {
    let input = [0, 1, 2, 3, 4, 5, 6, 7, 8, 9, 10, 11, 12, 13, 14, 15];
    let mut state = State::from_bytes(input);
    state.mix_columns();
    assert_eq!(state.bytes[0][0], mul(2, 0) ^ mul(3, 1) ^ 2 ^ 3);
}

/// MixColumns on the FIPS-197 column vector.
#[test]
fn test_mix_columns_fips_vector() {
    let input: [u8; 16] = [0xd4, 0xbf, 0x5d, 0x30, 0, 0, 0, 0, 0, 0, 0, 0, 0, 0, 0, 0];
    let mut state = State::from_bytes(input);
    state.mix_columns();
    assert_eq!(state.bytes[0][0], 0x04);
    assert_eq!(state.bytes[1][0], 0x66);
    assert_eq!(state.bytes[2][0], 0x81);
    assert_eq!(state.bytes[3][0], 0xe5);
}

/// AddRoundKey twice with the same key gives the state back.
#[test]
fn test_add_round_key_is_its_own_inverse() {
    let input: [u8; 16] = [
        5, 10, 15, 20, 25, 30, 35, 40, 45, 50, 55, 60, 65, 70, 75, 80,
    ];
    let key_bytes: [u8; 16] = [1, 2, 3, 4, 5, 6, 7, 8, 9, 10, 11, 12, 13, 14, 15, 16];
    let mut state = State::from_bytes(input);
    let key = State::from_bytes(key_bytes);
    state.add_round_key(&key);
    state.add_round_key(&key);
    assert_eq!(state.to_bytes(), input);
}

/// InvShiftRows undoes ShiftRows.
#[test]
fn test_inv_shift_rows_cancels_shift_rows() {
    let input: [u8; 16] = [0, 1, 2, 3, 4, 5, 6, 7, 8, 9, 10, 11, 12, 13, 14, 15];
    let mut state = State::from_bytes(input);

    state.shift_rows();
    state.inv_shift_rows();

    assert_eq!(state.to_bytes(), input);
}

/// InvSubBytes undoes SubBytes.
#[test]
fn test_inv_sub_bytes_cancels_sub_bytes() {
    let input: [u8; 16] = [0, 1, 2, 3, 4, 5, 6, 7, 8, 9, 10, 11, 12, 13, 14, 15];
    let mut state = State::from_bytes(input);

    state.sub_bytes();
    state.inv_sub_bytes();

    assert_eq!(state.to_bytes(), input);
}

/// InvMixColumns undoes MixColumns.
#[test]
fn test_inv_mix_columns_cancels_mix_columns() {
    let input: [u8; 16] = [0, 1, 2, 3, 4, 5, 6, 7, 8, 9, 10, 11, 12, 13, 14, 15];
    let mut state = State::from_bytes(input);

    state.mix_columns();
    state.inv_mix_columns();

    assert_eq!(state.to_bytes(), input);
}

#[test]
fn test_inverse_steps_undone_by_forward_steps() {
    let input: [u8; 16] = [
        0x32, 0x43, 0xf6, 0xa8, 0x88, 0x5a, 0x30, 0x8d, 0x31, 0x31, 0x98, 0xa2, 0xe0, 0x37, 0x07,
        0x34,
    ];
    let mut state = State::from_bytes(input);
    state.inv_mix_columns();
    state.mix_columns();
    state.inv_sub_bytes();
    state.sub_bytes();
    state.inv_shift_rows();
    state.shift_rows();
    assert_eq!(state.to_bytes(), input);
}

#[test]
fn test_inv_mix_columns_fips_vector() {
    let input: [u8; 16] = [0x04, 0x66, 0x81, 0xe5, 0, 0, 0, 0, 0, 0, 0, 0, 0, 0, 0, 0];
    let mut state = State::from_bytes(input);
    state.inv_mix_columns();
    assert_eq!(state.bytes[0][0], 0xd4);
    assert_eq!(state.bytes[1][0], 0xbf);
    assert_eq!(state.bytes[2][0], 0x5d);
    assert_eq!(state.bytes[3][0], 0x30);
}

#[test]
fn test_inv_shift_rows_values() {
    let input: [u8; 16] = [0, 1, 2, 3, 4, 5, 6, 7, 8, 9, 10, 11, 12, 13, 14, 15];
    let mut state = State::from_bytes(input);
    state.inv_shift_rows();
    assert_eq!(state.bytes[0], [0, 4, 8, 12]);
    assert_eq!(state.bytes[1], [13, 1, 5, 9]);
    assert_eq!(state.bytes[2], [10, 14, 2, 6]);
    assert_eq!(state.bytes[3], [7, 11, 15, 3]);
}
