use vstd::prelude::*;
use super::constants::{lemma_sbox_table, SBOX};
use super::gf256::gf_mul;
use super::sbox::sbox_spec;
use super::state::{block_of, cell, lemma_cell_of_block, State};

verus! {

/// SubBytes on a block: every byte goes through the S-box.
pub open spec fn sub_bytes_spec(s: Seq<u8>) -> Seq<u8> {
    block_of(|r: int, c: int| sbox_spec(cell(s, r, c)))
}

/// ShiftRows on a block: row `r` is rotated left by `r` positions.
pub open spec fn shift_rows_spec(s: Seq<u8>) -> Seq<u8> {
    block_of(|r: int, c: int| cell(s, r, (c + r) % 4))
}

/// Row `r` of the MixColumns matrix applied to the column `(a0, a1, a2, a3)`.
pub open spec fn mix_column_byte(a0: u8, a1: u8, a2: u8, a3: u8, r: int) -> u8 {
    if r == 0 {
        gf_mul(2, a0) ^ gf_mul(3, a1) ^ a2 ^ a3
    } else if r == 1 {
        a0 ^ gf_mul(2, a1) ^ gf_mul(3, a2) ^ a3
    } else if r == 2 {
        a0 ^ a1 ^ gf_mul(2, a2) ^ gf_mul(3, a3)
    } else {
        gf_mul(3, a0) ^ a1 ^ a2 ^ gf_mul(2, a3)
    }
}

/// MixColumns on a block: each column is multiplied by the fixed matrix
/// with rows (2 3 1 1), (1 2 3 1), (1 1 2 3), (3 1 1 2) over GF(2^8).
pub open spec fn mix_columns_spec(s: Seq<u8>) -> Seq<u8> {
    block_of(
        |r: int, c: int| mix_column_byte(cell(s, 0, c), cell(s, 1, c), cell(s, 2, c), cell(s, 3, c), r),
    )
}

/// AddRoundKey on a block: byte-wise XOR with the round key.
pub open spec fn add_round_key_spec(s: Seq<u8>, k: Seq<u8>) -> Seq<u8> {
    block_of(|r: int, c: int| cell(s, r, c) ^ cell(k, r, c))
}

impl State {
    /// ShiftRows: rotates row `r` of the matrix left by `r` positions
    /// (row 0 does not move, row 3 moves by 3).
    pub fn shift_rows(&mut self)
        ensures
            final(self)@ == shift_rows_spec(old(self)@),
    {
        let ghost s = self@;
        proof {
            self.lemma_holds_view(s);
        }
        for row in 0..4usize
            invariant
                s.len() == 16,
                forall|r: int, c: int|
                    0 <= r < row && 0 <= c < 4 ==> #[trigger] self.bytes[r][c] == cell(
                        s,
                        r,
                        (c + r) % 4,
                    ),
                forall|r: int, c: int|
                    row <= r < 4 && 0 <= c < 4 ==> #[trigger] self.bytes[r][c] == cell(s, r, c),
        {
            let original_row = self.bytes[row];
            for col in 0..4usize
                invariant
                    s.len() == 16,
                    row < 4,
                    forall|c: int| 0 <= c < 4 ==> original_row[c] == cell(s, row as int, c),
                    forall|r: int, c: int|
                        0 <= r < row && 0 <= c < 4 ==> #[trigger] self.bytes[r][c] == cell(
                            s,
                            r,
                            (c + r) % 4,
                        ),
                    forall|r: int, c: int|
                        row < r < 4 && 0 <= c < 4 ==> #[trigger] self.bytes[r][c] == cell(s, r, c),
                    forall|c: int|
                        0 <= c < col ==> #[trigger] self.bytes[row as int][c] == cell(
                            s,
                            row as int,
                            (c + row) % 4,
                        ),
                    forall|c: int| col <= c < 4 ==> #[trigger] self.bytes[row as int][c] == cell(s, row as int, c),
            {
                let source_col = (col + row) % 4;
                self.bytes[row][col] = original_row[source_col];
            }
        }
        proof {
            let t = shift_rows_spec(s);
            assert forall|r: int, c: int| 0 <= r < 4 && 0 <= c < 4 implies #[trigger] self.bytes[r][c]
                == cell(t, r, c) by {
                lemma_cell_of_block(|r: int, c: int| cell(s, r, (c + r) % 4), r, c);
            }
            self.lemma_holds_view(t);
        }
    }

    /// SubBytes: replaces every byte of the matrix by its S-box value.
    pub fn sub_bytes(&mut self)
        ensures
            final(self)@ == sub_bytes_spec(old(self)@),
    {
        let ghost s = self@;
        proof {
            self.lemma_holds_view(s);
        }
        for row in 0..4usize
            invariant
                s.len() == 16,
                forall|r: int, c: int|
                    0 <= r < row && 0 <= c < 4 ==> #[trigger] self.bytes[r][c] == sbox_spec(
                        cell(s, r, c),
                    ),
                forall|r: int, c: int|
                    row <= r < 4 && 0 <= c < 4 ==> #[trigger] self.bytes[r][c] == cell(s, r, c),
        {
            for col in 0..4usize
                invariant
                    s.len() == 16,
                    row < 4,
                    forall|r: int, c: int|
                        0 <= r < row && 0 <= c < 4 ==> #[trigger] self.bytes[r][c] == sbox_spec(
                            cell(s, r, c),
                        ),
                    forall|r: int, c: int|
                        row < r < 4 && 0 <= c < 4 ==> #[trigger] self.bytes[r][c] == cell(s, r, c),
                    forall|c: int|
                        0 <= c < col ==> #[trigger] self.bytes[row as int][c] == sbox_spec(
                            cell(s, row as int, c),
                        ),
                    forall|c: int| col <= c < 4 ==> #[trigger] self.bytes[row as int][c] == cell(s, row as int, c),
            {
                let byte = self.bytes[row][col];
                proof {
                    lemma_sbox_table(byte);
                }
                self.bytes[row][col] = SBOX[byte as usize];
            }
        }
        proof {
            let t = sub_bytes_spec(s);
            assert forall|r: int, c: int| 0 <= r < 4 && 0 <= c < 4 implies #[trigger] self.bytes[r][c]
                == cell(t, r, c) by {
                lemma_cell_of_block(|r: int, c: int| sbox_spec(cell(s, r, c)), r, c);
            }
            self.lemma_holds_view(t);
        }
    }

    /// MixColumns: multiplies every column by the fixed MixColumns matrix
    /// over GF(2^8).
    pub fn mix_columns(&mut self)
        ensures
            final(self)@ == mix_columns_spec(old(self)@),
    {
        let ghost s = self@;
        proof {
            self.lemma_holds_view(s);
        }
        for col in 0..4usize
            invariant
                s.len() == 16,
                forall|r: int, c: int|
                    0 <= r < 4 && 0 <= c < col ==> #[trigger] self.bytes[r][c] == mix_column_byte(
                        cell(s, 0, c),
                        cell(s, 1, c),
                        cell(s, 2, c),
                        cell(s, 3, c),
                        r,
                    ),
                forall|r: int, c: int|
                    0 <= r < 4 && col <= c < 4 ==> #[trigger] self.bytes[r][c] == cell(s, r, c),
        {
            let a0 = self.bytes[0][col];
            let a1 = self.bytes[1][col];
            let a2 = self.bytes[2][col];
            let a3 = self.bytes[3][col];

            self.bytes[0][col] = crate::aes_core::gf256::mul(2, a0) ^ crate::aes_core::gf256::mul(3, a1) ^ a2 ^ a3;
            self.bytes[1][col] = a0 ^ crate::aes_core::gf256::mul(2, a1) ^ crate::aes_core::gf256::mul(3, a2) ^ a3;
            self.bytes[2][col] = a0 ^ a1 ^ crate::aes_core::gf256::mul(2, a2) ^ crate::aes_core::gf256::mul(3, a3);
            self.bytes[3][col] = crate::aes_core::gf256::mul(3, a0) ^ a1 ^ a2 ^ crate::aes_core::gf256::mul(2, a3);
        }
        proof {
            let t = mix_columns_spec(s);
            assert forall|r: int, c: int| 0 <= r < 4 && 0 <= c < 4 implies #[trigger] self.bytes[r][c]
                == cell(t, r, c) by {
                lemma_cell_of_block(
                    |r: int, c: int|
                        mix_column_byte(cell(s, 0, c), cell(s, 1, c), cell(s, 2, c), cell(s, 3, c), r),
                    r,
                    c,
                );
            }
            self.lemma_holds_view(t);
        }
    }

    /// AddRoundKey: XORs every byte of the state with the matching byte of
    /// the round key.
    pub fn add_round_key(&mut self, round_key: &State)
        ensures
            final(self)@ == add_round_key_spec(old(self)@, round_key@),
    {
        let ghost s = self@;
        let ghost k = round_key@;
        proof {
            self.lemma_holds_view(s);
            round_key.lemma_holds_view(k);
        }
        for row in 0..4usize
            invariant
                s.len() == 16,
                round_key.holds(k),
                forall|r: int, c: int|
                    0 <= r < row && 0 <= c < 4 ==> #[trigger] self.bytes[r][c] == cell(s, r, c) ^ cell(
                        k,
                        r,
                        c,
                    ),
                forall|r: int, c: int|
                    row <= r < 4 && 0 <= c < 4 ==> #[trigger] self.bytes[r][c] == cell(s, r, c),
        {
            for col in 0..4usize
                invariant
                    s.len() == 16,
                    round_key.holds(k),
                    row < 4,
                    forall|r: int, c: int|
                        0 <= r < row && 0 <= c < 4 ==> #[trigger] self.bytes[r][c] == cell(s, r, c)
                            ^ cell(k, r, c),
                    forall|r: int, c: int|
                        row < r < 4 && 0 <= c < 4 ==> #[trigger] self.bytes[r][c] == cell(s, r, c),
                    forall|c: int|
                        0 <= c < col ==> #[trigger] self.bytes[row as int][c] == cell(s, row as int, c)
                            ^ cell(k, row as int, c),
                    forall|c: int| col <= c < 4 ==> #[trigger] self.bytes[row as int][c] == cell(s, row as int, c),
            {
                let state_byte = self.bytes[row][col];
                let key_byte = round_key.bytes[row][col];
                self.bytes[row][col] = crate::aes_core::gf256::add(state_byte, key_byte);
            }
        }
        proof {
            let t = add_round_key_spec(s, k);
            assert forall|r: int, c: int| 0 <= r < 4 && 0 <= c < 4 implies #[trigger] self.bytes[r][c]
                == cell(t, r, c) by {
                lemma_cell_of_block(|r: int, c: int| cell(s, r, c) ^ cell(k, r, c), r, c);
            }
            self.lemma_holds_view(t);
        }
    }
}

} // verus!
