use aes_rust_lab::aes_core::state::State;

/// from_bytes fills the matrix column by column.
#[test]
fn test_from_bytes() {
    let input: [u8; 16] = [0, 1, 2, 3, 4, 5, 6, 7, 8, 9, 10, 11, 12, 13, 14, 15];
    let state = State::from_bytes(input);

    assert_eq!(state.bytes[2][1], 6);
    assert_eq!(state.bytes[0][0], 0);
    assert_eq!(state.bytes[3][3], 15);
}

/// to_bytes is the inverse of from_bytes.
#[test]
fn test_from_to_bytes() {
    let input: [u8; 16] = [0, 1, 2, 3, 4, 5, 6, 7, 8, 9, 10, 11, 12, 13, 14, 15];
    let state = State::from_bytes(input);
    let output = state.to_bytes();
    assert_eq!(input, output);
}

#[test]
fn test_from_bytes_every_position() {
    let mut input = [0u8; 16];
    for i in 0..16 {
        input[i] = (i as u8) * 17;
    }
    let state = State::from_bytes(input);
    for r in 0..4 {
        for c in 0..4 {
            assert_eq!(state.bytes[r][c], input[r + 4 * c]);
        }
    }
}
