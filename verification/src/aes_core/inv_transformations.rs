use vstd::prelude::*;
use super::constants::{lemma_inv_sbox_table, INV_SBOX};
use super::gf256::gf_mul;
use super::mix_column_lemmas::{
    lemma_mix_then_inv_row0,
    lemma_mix_then_inv_row1,
    lemma_mix_then_inv_row2,
    lemma_mix_then_inv_row3,
    lemma_inv_then_mix_row0,
    lemma_inv_then_mix_row1,
    lemma_inv_then_mix_row2,
    lemma_inv_then_mix_row3,
};
use super::sbox::{inv_sbox_spec, lemma_sbox_inverse, sbox_spec};
use super::state::{block_of, cell, lemma_block_index, lemma_blocks_equal, lemma_cell_of_block, State};
use super::transformations::{
    add_round_key_spec,
    mix_column_byte,
    mix_columns_spec,
    shift_rows_spec,
    sub_bytes_spec,
};

verus! {

/// InvSubBytes on a block: every byte goes through the inverse S-box.
pub open spec fn inv_sub_bytes_spec(s: Seq<u8>) -> Seq<u8> {
    block_of(|r: int, c: int| inv_sbox_spec(cell(s, r, c)))
}

/// InvShiftRows on a block: row `r` is rotated right by `r` positions.
pub open spec fn inv_shift_rows_spec(s: Seq<u8>) -> Seq<u8> {
    block_of(|r: int, c: int| cell(s, r, (c + 4 - r) % 4))
}

/// Row `r` of the InvMixColumns matrix applied to the column `(a0, a1, a2, a3)`.
pub open spec fn inv_mix_column_byte(a0: u8, a1: u8, a2: u8, a3: u8, r: int) -> u8 {
    if r == 0 {
        gf_mul(14, a0) ^ gf_mul(11, a1) ^ gf_mul(13, a2) ^ gf_mul(9, a3)
    } else if r == 1 {
        gf_mul(9, a0) ^ gf_mul(14, a1) ^ gf_mul(11, a2) ^ gf_mul(13, a3)
    } else if r == 2 {
        gf_mul(13, a0) ^ gf_mul(9, a1) ^ gf_mul(14, a2) ^ gf_mul(11, a3)
    } else {
        gf_mul(11, a0) ^ gf_mul(13, a1) ^ gf_mul(9, a2) ^ gf_mul(14, a3)
    }
}

/// InvMixColumns on a block: each column is multiplied by the inverse matrix
/// with rows (14 11 13 9), (9 14 11 13), (13 9 14 11), (11 13 9 14).
pub open spec fn inv_mix_columns_spec(s: Seq<u8>) -> Seq<u8> {
    block_of(
        |r: int, c: int|
            inv_mix_column_byte(cell(s, 0, c), cell(s, 1, c), cell(s, 2, c), cell(s, 3, c), r),
    )
}

pub proof fn lemma_xor_twice(a: u8, b: u8)
    by (bit_vector)
    ensures
        (a ^ b) ^ b == a,
{
}

proof fn lemma_rotation_indices(r: int, c: int)
    requires
        0 <= r < 4,
        0 <= c < 4,
    ensures
        0 <= (c + r) % 4 < 4,
        0 <= (c + 4 - r) % 4 < 4,
        ((c + 4 - r) % 4 + r) % 4 == c,
        ((c + r) % 4 + 4 - r) % 4 == c,
{
    if r == 0 {
    } else if r == 1 {
        if c == 0 {} else if c == 1 {} else if c == 2 {} else {}
    } else if r == 2 {
        if c == 0 {} else if c == 1 {} else if c == 2 {} else {}
    } else {
        if c == 0 {} else if c == 1 {} else if c == 2 {} else {}
    }
}

/// InvShiftRows undoes ShiftRows, and the other way round.
pub proof fn lemma_shift_rows_inverse(s: Seq<u8>)
    requires
        s.len() == 16,
    ensures
        inv_shift_rows_spec(shift_rows_spec(s)) == s,
        shift_rows_spec(inv_shift_rows_spec(s)) == s,
{
    let t = shift_rows_spec(s);
    let u = inv_shift_rows_spec(s);
    assert forall|r: int, c: int| 0 <= r < 4 && 0 <= c < 4 implies cell(inv_shift_rows_spec(t), r, c)
        == cell(s, r, c) && cell(shift_rows_spec(u), r, c) == cell(s, r, c) by {
        lemma_rotation_indices(r, c);
        lemma_cell_of_block(|r: int, c: int| cell(t, r, (c + 4 - r) % 4), r, c);
        lemma_cell_of_block(|r: int, c: int| cell(s, r, (c + r) % 4), r, (c + 4 - r) % 4);
        lemma_cell_of_block(|r: int, c: int| cell(u, r, (c + r) % 4), r, c);
        lemma_cell_of_block(|r: int, c: int| cell(s, r, (c + 4 - r) % 4), r, (c + r) % 4);
    }
    lemma_blocks_equal(inv_shift_rows_spec(t), s);
    lemma_blocks_equal(shift_rows_spec(u), s);
}

/// InvSubBytes undoes SubBytes, and the other way round.
pub proof fn lemma_sub_bytes_inverse(s: Seq<u8>)
    requires
        s.len() == 16,
    ensures
        inv_sub_bytes_spec(sub_bytes_spec(s)) == s,
        sub_bytes_spec(inv_sub_bytes_spec(s)) == s,
{
    let t = sub_bytes_spec(s);
    let u = inv_sub_bytes_spec(s);
    assert forall|r: int, c: int| 0 <= r < 4 && 0 <= c < 4 implies cell(inv_sub_bytes_spec(t), r, c)
        == cell(s, r, c) && cell(sub_bytes_spec(u), r, c) == cell(s, r, c) by {
        lemma_cell_of_block(|r: int, c: int| inv_sbox_spec(cell(t, r, c)), r, c);
        lemma_cell_of_block(|r: int, c: int| sbox_spec(cell(s, r, c)), r, c);
        lemma_cell_of_block(|r: int, c: int| sbox_spec(cell(u, r, c)), r, c);
        lemma_cell_of_block(|r: int, c: int| inv_sbox_spec(cell(s, r, c)), r, c);
        lemma_sbox_inverse(cell(s, r, c));
    }
    lemma_blocks_equal(inv_sub_bytes_spec(t), s);
    lemma_blocks_equal(sub_bytes_spec(u), s);
}

/// InvMixColumns undoes MixColumns, and the other way round.
pub proof fn lemma_mix_columns_inverse(s: Seq<u8>)
    requires
        s.len() == 16,
    ensures
        inv_mix_columns_spec(mix_columns_spec(s)) == s,
        mix_columns_spec(inv_mix_columns_spec(s)) == s,
{
    let t = mix_columns_spec(s);
    let u = inv_mix_columns_spec(s);
    let f = |r: int, c: int|
        mix_column_byte(cell(s, 0, c), cell(s, 1, c), cell(s, 2, c), cell(s, 3, c), r);
    let g = |r: int, c: int|
        inv_mix_column_byte(cell(s, 0, c), cell(s, 1, c), cell(s, 2, c), cell(s, 3, c), r);
    let ft = |r: int, c: int|
        inv_mix_column_byte(cell(t, 0, c), cell(t, 1, c), cell(t, 2, c), cell(t, 3, c), r);
    let gu = |r: int, c: int|
        mix_column_byte(cell(u, 0, c), cell(u, 1, c), cell(u, 2, c), cell(u, 3, c), r);
    assert forall|r: int, c: int| 0 <= r < 4 && 0 <= c < 4 implies cell(inv_mix_columns_spec(t), r, c)
        == cell(s, r, c) && cell(mix_columns_spec(u), r, c) == cell(s, r, c) by {
        lemma_cell_of_block(ft, r, c);
        lemma_cell_of_block(gu, r, c);
        lemma_cell_of_block(f, 0, c);
        lemma_cell_of_block(f, 1, c);
        lemma_cell_of_block(f, 2, c);
        lemma_cell_of_block(f, 3, c);
        lemma_cell_of_block(g, 0, c);
        lemma_cell_of_block(g, 1, c);
        lemma_cell_of_block(g, 2, c);
        lemma_cell_of_block(g, 3, c);
        let a0 = cell(s, 0, c);
        let a1 = cell(s, 1, c);
        let a2 = cell(s, 2, c);
        let a3 = cell(s, 3, c);
        let b0 = cell(t, 0, c);
        let b1 = cell(t, 1, c);
        let b2 = cell(t, 2, c);
        let b3 = cell(t, 3, c);
        let d0 = cell(u, 0, c);
        let d1 = cell(u, 1, c);
        let d2 = cell(u, 2, c);
        let d3 = cell(u, 3, c);
        if r == 0 {
            lemma_mix_then_inv_row0(a0, a1, a2, a3, b0, b1, b2, b3);
            lemma_inv_then_mix_row0(a0, a1, a2, a3, d0, d1, d2, d3);
        } else if r == 1 {
            lemma_mix_then_inv_row1(a0, a1, a2, a3, b0, b1, b2, b3);
            lemma_inv_then_mix_row1(a0, a1, a2, a3, d0, d1, d2, d3);
        } else if r == 2 {
            lemma_mix_then_inv_row2(a0, a1, a2, a3, b0, b1, b2, b3);
            lemma_inv_then_mix_row2(a0, a1, a2, a3, d0, d1, d2, d3);
        } else {
            lemma_mix_then_inv_row3(a0, a1, a2, a3, b0, b1, b2, b3);
            lemma_inv_then_mix_row3(a0, a1, a2, a3, d0, d1, d2, d3);
        }
    }
    lemma_blocks_equal(inv_mix_columns_spec(t), s);
    lemma_blocks_equal(mix_columns_spec(u), s);
}

/// AddRoundKey with the same key twice gives back the state.
pub proof fn lemma_add_round_key_involution(s: Seq<u8>, k: Seq<u8>)
    requires
        s.len() == 16,
    ensures
        add_round_key_spec(add_round_key_spec(s, k), k) == s,
{
    let t = add_round_key_spec(s, k);
    assert forall|r: int, c: int| 0 <= r < 4 && 0 <= c < 4 implies cell(add_round_key_spec(t, k), r, c)
        == cell(s, r, c) by {
        lemma_cell_of_block(|r: int, c: int| cell(t, r, c) ^ cell(k, r, c), r, c);
        lemma_cell_of_block(|r: int, c: int| cell(s, r, c) ^ cell(k, r, c), r, c);
        lemma_xor_twice(cell(s, r, c), cell(k, r, c));
    }
    lemma_blocks_equal(add_round_key_spec(t, k), s);
}

impl State {
    /// InvShiftRows: the inverse of ShiftRows; rotates row `r` of the matrix
    /// right by `r` positions.
    pub fn inv_shift_rows(&mut self)
        ensures
            final(self)@ == inv_shift_rows_spec(old(self)@),
    {
        let ghost s = self@;
        proof {
            self.lemma_holds_view(s);
        }
        for row in 0..4usize
            invariant
                s.len() == 16,
                forall|r: int, c: int|
                    0 <= r < row && 0 <= c < 4 ==> #[trigger] self.bytes[r][c] == cell(
                        s,
                        r,
                        (c + 4 - r) % 4,
                    ),
                forall|r: int, c: int|
                    row <= r < 4 && 0 <= c < 4 ==> #[trigger] self.bytes[r][c] == cell(s, r, c),
        {
            let original_row = self.bytes[row];
            for col in 0..4usize
                invariant
                    s.len() == 16,
                    row < 4,
                    forall|c: int| 0 <= c < 4 ==> original_row[c] == cell(s, row as int, c),
                    forall|r: int, c: int|
                        0 <= r < row && 0 <= c < 4 ==> #[trigger] self.bytes[r][c] == cell(
                            s,
                            r,
                            (c + 4 - r) % 4,
                        ),
                    forall|r: int, c: int|
                        row < r < 4 && 0 <= c < 4 ==> #[trigger] self.bytes[r][c] == cell(s, r, c),
                    forall|c: int|
                        0 <= c < col ==> #[trigger] self.bytes[row as int][c] == cell(
                            s,
                            row as int,
                            (c + 4 - row) % 4,
                        ),
                    forall|c: int| col <= c < 4 ==> #[trigger] self.bytes[row as int][c] == cell(s, row as int, c),
            {
                let source_col = (col + 4 - row) % 4;
                self.bytes[row][col] = original_row[source_col];
            }
        }
        proof {
            let t = inv_shift_rows_spec(s);
            assert forall|r: int, c: int| 0 <= r < 4 && 0 <= c < 4 implies #[trigger] self.bytes[r][c]
                == cell(t, r, c) by {
                lemma_cell_of_block(|r: int, c: int| cell(s, r, (c + 4 - r) % 4), r, c);
            }
            self.lemma_holds_view(t);
        }
    }

    /// InvSubBytes: the inverse of SubBytes; replaces every byte by its
    /// inverse S-box value.
    pub fn inv_sub_bytes(&mut self)
        ensures
            final(self)@ == inv_sub_bytes_spec(old(self)@),
    {
        let ghost s = self@;
        proof {
            self.lemma_holds_view(s);
        }
        for row in 0..4usize
            invariant
                s.len() == 16,
                forall|r: int, c: int|
                    0 <= r < row && 0 <= c < 4 ==> #[trigger] self.bytes[r][c] == inv_sbox_spec(
                        cell(s, r, c),
                    ),
                forall|r: int, c: int|
                    row <= r < 4 && 0 <= c < 4 ==> #[trigger] self.bytes[r][c] == cell(s, r, c),
        {
            for col in 0..4usize
                invariant
                    s.len() == 16,
                    row < 4,
                    forall|r: int, c: int|
                        0 <= r < row && 0 <= c < 4 ==> #[trigger] self.bytes[r][c] == inv_sbox_spec(
                            cell(s, r, c),
                        ),
                    forall|r: int, c: int|
                        row < r < 4 && 0 <= c < 4 ==> #[trigger] self.bytes[r][c] == cell(s, r, c),
                    forall|c: int|
                        0 <= c < col ==> #[trigger] self.bytes[row as int][c] == inv_sbox_spec(
                            cell(s, row as int, c),
                        ),
                    forall|c: int| col <= c < 4 ==> #[trigger] self.bytes[row as int][c] == cell(s, row as int, c),
            {
                let byte = self.bytes[row][col];
                proof {
                    lemma_inv_sbox_table(byte);
                }
                self.bytes[row][col] = INV_SBOX[byte as usize];
            }
        }
        proof {
            let t = inv_sub_bytes_spec(s);
            assert forall|r: int, c: int| 0 <= r < 4 && 0 <= c < 4 implies #[trigger] self.bytes[r][c]
                == cell(t, r, c) by {
                lemma_cell_of_block(|r: int, c: int| inv_sbox_spec(cell(s, r, c)), r, c);
            }
            self.lemma_holds_view(t);
        }
    }

    /// InvMixColumns: the inverse of MixColumns; multiplies every column by
    /// the inverse matrix (coefficients 14, 11, 13, 9) over GF(2^8).
    pub fn inv_mix_columns(&mut self)
        ensures
            final(self)@ == inv_mix_columns_spec(old(self)@),
    {
        let ghost s = self@;
        proof {
            self.lemma_holds_view(s);
        }
        for col in 0..4usize
            invariant
                s.len() == 16,
                forall|r: int, c: int|
                    0 <= r < 4 && 0 <= c < col ==> #[trigger] self.bytes[r][c] == inv_mix_column_byte(
                        cell(s, 0, c),
                        cell(s, 1, c),
                        cell(s, 2, c),
                        cell(s, 3, c),
                        r,
                    ),
                forall|r: int, c: int|
                    0 <= r < 4 && col <= c < 4 ==> #[trigger] self.bytes[r][c] == cell(s, r, c),
        {
            let a0 = self.bytes[0][col];
            let a1 = self.bytes[1][col];
            let a2 = self.bytes[2][col];
            let a3 = self.bytes[3][col];

            self.bytes[0][col] = crate::aes_core::gf256::mul(14, a0) ^ crate::aes_core::gf256::mul(11, a1)
                ^ crate::aes_core::gf256::mul(13, a2) ^ crate::aes_core::gf256::mul(9, a3);
            self.bytes[1][col] = crate::aes_core::gf256::mul(9, a0) ^ crate::aes_core::gf256::mul(14, a1)
                ^ crate::aes_core::gf256::mul(11, a2) ^ crate::aes_core::gf256::mul(13, a3);
            self.bytes[2][col] = crate::aes_core::gf256::mul(13, a0) ^ crate::aes_core::gf256::mul(9, a1)
                ^ crate::aes_core::gf256::mul(14, a2) ^ crate::aes_core::gf256::mul(11, a3);
            self.bytes[3][col] = crate::aes_core::gf256::mul(11, a0) ^ crate::aes_core::gf256::mul(13, a1)
                ^ crate::aes_core::gf256::mul(9, a2) ^ crate::aes_core::gf256::mul(14, a3);
        }
        proof {
            let t = inv_mix_columns_spec(s);
            assert forall|r: int, c: int| 0 <= r < 4 && 0 <= c < 4 implies #[trigger] self.bytes[r][c]
                == cell(t, r, c) by {
                lemma_cell_of_block(
                    |r: int, c: int|
                        inv_mix_column_byte(cell(s, 0, c), cell(s, 1, c), cell(s, 2, c), cell(s, 3, c), r),
                    r,
                    c,
                );
            }
            self.lemma_holds_view(t);
        }
    }
}

} // verus!
