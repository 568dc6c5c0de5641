use vstd::prelude::*;
use super::key_expansion::{key_expansion, key_word};
use super::state::{block_of, cell, lemma_block_index, lemma_blocks_equal, lemma_cell_of_block, State};
use super::transformations::{add_round_key_spec, mix_columns_spec, shift_rows_spec, sub_bytes_spec};

verus! {

/// Round key number `round` as a block: column `c` is key-schedule word
/// `4 * round + c`.
pub open spec fn round_key_spec(key: Seq<u8>, round: int) -> Seq<u8> {
    block_of(|r: int, c: int| key_word(key, (4 * round + c) as nat)[r])
}

/// One full encryption round: SubBytes, ShiftRows, MixColumns, AddRoundKey.
pub open spec fn encrypt_round(s: Seq<u8>, k: Seq<u8>) -> Seq<u8> {
    add_round_key_spec(mix_columns_spec(shift_rows_spec(sub_bytes_spec(s))), k)
}

/// The full rounds 1 to `n` applied to `s`.
pub open spec fn encrypt_rounds(s: Seq<u8>, key: Seq<u8>, n: nat) -> Seq<u8>
    decreases n,
{
    if n == 0 {
        s
    } else {
        encrypt_round(encrypt_rounds(s, key, (n - 1) as nat), round_key_spec(key, n as int))
    }
}

/// AES-128 encryption of a 16-byte block (FIPS-197, Cipher): AddRoundKey
/// with round key 0, nine full rounds, then a final round without
/// MixColumns.
#[verifier::opaque]
pub open spec fn aes128_encrypt(plaintext: Seq<u8>, key: Seq<u8>) -> Seq<u8> {
    let s = encrypt_rounds(add_round_key_spec(plaintext, round_key_spec(key, 0)), key, 9);
    add_round_key_spec(shift_rows_spec(sub_bytes_spec(s)), round_key_spec(key, 10))
}

/// An encrypted block has 16 bytes.
pub proof fn lemma_aes128_encrypt_len(plaintext: Seq<u8>, key: Seq<u8>)
    ensures
        aes128_encrypt(plaintext, key).len() == 16,
{
    reveal(aes128_encrypt);
}

/// The round key built from a key schedule table.
pub open spec fn round_key_of_words(round_keys: [[u8; 4]; 44], round: int) -> Seq<u8> {
    block_of(|r: int, c: int| round_keys[4 * round + c][r])
}

/// A schedule table holding the key schedule of `key` gives its round keys.
pub proof fn lemma_round_key_of_schedule(round_keys: [[u8; 4]; 44], key: Seq<u8>, round: int)
    requires
        0 <= round <= 10,
        forall|i: int| 0 <= i < 44 ==> (#[trigger] round_keys[i])@ == key_word(key, i as nat),
    ensures
        round_key_of_words(round_keys, round) == round_key_spec(key, round),
{
    let f = |r: int, c: int| round_keys[4 * round + c][r];
    let g = |r: int, c: int| key_word(key, (4 * round + c) as nat)[r];
    assert forall|r: int, c: int| 0 <= r < 4 && 0 <= c < 4 implies cell(block_of(f), r, c) == cell(
        block_of(g),
        r,
        c,
    ) by {
        lemma_cell_of_block(f, r, c);
        lemma_cell_of_block(g, r, c);
        assert(round_keys[4 * round + c]@ == key_word(key, (4 * round + c) as nat));
    }
    lemma_blocks_equal(block_of(f), block_of(g));
}

/// Assembles round key number `round` from the 44 words of the key schedule,
/// as a state ready for AddRoundKey.
pub fn round_key(round_keys: &[[u8; 4]; 44], round: usize) -> (st: State)
    requires
        round <= 10,
    ensures
        st@ == round_key_of_words(*round_keys, round as int),
{
    let w0 = round_keys[4 * round];
    let w1 = round_keys[4 * round + 1];
    let w2 = round_keys[4 * round + 2];
    let w3 = round_keys[4 * round + 3];

    let bytes: [u8; 16] = [
        w0[0], w0[1], w0[2], w0[3], w1[0], w1[1], w1[2], w1[3], w2[0], w2[1], w2[2], w2[3], w3[0],
        w3[1], w3[2], w3[3],
    ];
    proof {
        let f = |r: int, c: int| round_keys[4 * round + c][r];
        assert forall|r: int, c: int| 0 <= r < 4 && 0 <= c < 4 implies cell(bytes@, r, c) == cell(
            block_of(f),
            r,
            c,
        ) by {
            lemma_cell_of_block(f, r, c);
            lemma_block_index(r, c);
        }
        lemma_blocks_equal(bytes@, block_of(f));
    }

    State::from_bytes(bytes)
}

/// Encrypts a 16-byte block with AES-128: an initial AddRoundKey, nine full
/// rounds (SubBytes, ShiftRows, MixColumns, AddRoundKey), and a final round
/// without MixColumns, as FIPS-197 prescribes.
pub fn encrypt(plaintext: [u8; 16], key: [u8; 16]) -> (ciphertext: [u8; 16])
    ensures
        ciphertext@ == aes128_encrypt(plaintext@, key@),
{
    proof {
        reveal(aes128_encrypt);
    }
    let round_keys = key_expansion(key);
    let mut state = State::from_bytes(plaintext);

    proof {
        lemma_round_key_of_schedule(round_keys, key@, 0);
    }
    state.add_round_key(&round_key(&round_keys, 0));
    let ghost start = state@;

    for round in 1..10usize
        invariant
            forall|i: int| 0 <= i < 44 ==> (#[trigger] round_keys[i])@ == key_word(key@, i as nat),
            start == add_round_key_spec(plaintext@, round_key_spec(key@, 0)),
            state@ == encrypt_rounds(start, key@, (round - 1) as nat),
    {
        proof {
            lemma_round_key_of_schedule(round_keys, key@, round as int);
        }
        state.sub_bytes();
        state.shift_rows();
        state.mix_columns();
        state.add_round_key(&round_key(&round_keys, round));
    }

    proof {
        lemma_round_key_of_schedule(round_keys, key@, 10);
    }
    state.sub_bytes();
    state.shift_rows();
    state.add_round_key(&round_key(&round_keys, 10));

    state.to_bytes()
}

/// One full round written out: SubBytes, then ShiftRows, then MixColumns,
/// then AddRoundKey.
pub open spec fn full_round(s: Seq<u8>, k: Seq<u8>) -> Seq<u8> {
    add_round_key_spec(mix_columns_spec(shift_rows_spec(sub_bytes_spec(s))), k)
}

/// AES-128 encryption is, for every block and key, AddRoundKey with round
/// key 0, the full rounds 1 to 9 with round keys 1 to 9 in that order, and a
/// final SubBytes, ShiftRows and AddRoundKey with round key 10.
pub proof fn lemma_aes128_encrypt_unrolled(plaintext: Seq<u8>, key: Seq<u8>)
    ensures
        aes128_encrypt(plaintext, key) == add_round_key_spec(
            shift_rows_spec(sub_bytes_spec(full_round(
        full_round(
        full_round(
        full_round(
        full_round(
        full_round(
        full_round(
        full_round(
        full_round(
        add_round_key_spec(plaintext, round_key_spec(key, 0)),
        round_key_spec(key, 1),
    ),
        round_key_spec(key, 2),
    ),
        round_key_spec(key, 3),
    ),
        round_key_spec(key, 4),
    ),
        round_key_spec(key, 5),
    ),
        round_key_spec(key, 6),
    ),
        round_key_spec(key, 7),
    ),
        round_key_spec(key, 8),
    ),
        round_key_spec(key, 9),
    ))),
            round_key_spec(key, 10),
        ),
{
    reveal(aes128_encrypt);
    reveal_with_fuel(encrypt_rounds, 10);
}

} // verus!
