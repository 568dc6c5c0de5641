use vstd::prelude::*;
use super::cipher::{
    aes128_encrypt,
    encrypt_rounds,
    lemma_round_key_of_schedule,
    round_key,
    round_key_spec,
};
use super::inv_transformations::{
    inv_mix_columns_spec,
    inv_shift_rows_spec,
    inv_sub_bytes_spec,
    lemma_add_round_key_involution,
    lemma_mix_columns_inverse,
    lemma_shift_rows_inverse,
    lemma_sub_bytes_inverse,
};
use super::key_expansion::{key_expansion, key_word};
use super::state::State;
use super::transformations::{add_round_key_spec, mix_columns_spec, shift_rows_spec, sub_bytes_spec};

verus! {

/// One inverse round, in the order the decryption applies it:
/// InvShiftRows, InvSubBytes, AddRoundKey, InvMixColumns.
pub open spec fn decrypt_round(s: Seq<u8>, k: Seq<u8>) -> Seq<u8> {
    inv_mix_columns_spec(add_round_key_spec(inv_sub_bytes_spec(inv_shift_rows_spec(s)), k))
}

/// The inverse rounds `n`, `n - 1`, ..., 1 applied to `s`, in that order.
pub open spec fn decrypt_rounds(s: Seq<u8>, key: Seq<u8>, n: nat) -> Seq<u8>
    decreases n,
{
    if n == 0 {
        s
    } else {
        decrypt_rounds(decrypt_round(s, round_key_spec(key, n as int)), key, (n - 1) as nat)
    }
}

/// AES-128 decryption of a 16-byte block: AddRoundKey with the last round
/// key, the inverse rounds 9 down to 1, then InvShiftRows, InvSubBytes and
/// AddRoundKey with round key 0.
#[verifier::opaque]
pub open spec fn aes128_decrypt(ciphertext: Seq<u8>, key: Seq<u8>) -> Seq<u8> {
    let s = decrypt_rounds(add_round_key_spec(ciphertext, round_key_spec(key, 10)), key, 9);
    add_round_key_spec(inv_sub_bytes_spec(inv_shift_rows_spec(s)), round_key_spec(key, 0))
}

/// A decrypted block has 16 bytes.
pub proof fn lemma_aes128_decrypt_len(ciphertext: Seq<u8>, key: Seq<u8>)
    ensures
        aes128_decrypt(ciphertext, key).len() == 16,
{
    reveal(aes128_decrypt);
}

/// Decrypts a 16-byte AES-128 block with a 16-byte key, applying the inverse
/// transformations with the round keys from the last one down to the first.
pub fn decrypt(ciphertext: [u8; 16], key: [u8; 16]) -> (plaintext: [u8; 16])
    ensures
        plaintext@ == aes128_decrypt(ciphertext@, key@),
{
    proof {
        reveal(aes128_decrypt);
    }
    let round_keys = key_expansion(key);
    let mut state = State::from_bytes(ciphertext);

    proof {
        lemma_round_key_of_schedule(round_keys, key@, 10);
    }
    // The last round key goes in before the inverse transformations.
    state.add_round_key(&round_key(&round_keys, 10));
    let ghost start = state@;

    // The nine inverse rounds, from round 9 down to round 1.
    let mut round: usize = 9;
    while round >= 1
        invariant
            round <= 9,
            forall|i: int| 0 <= i < 44 ==> (#[trigger] round_keys[i])@ == key_word(key@, i as nat),
            decrypt_rounds(state@, key@, round as nat) == decrypt_rounds(start, key@, 9),
        decreases round,
    {
        proof {
            lemma_round_key_of_schedule(round_keys, key@, round as int);
        }
        state.inv_shift_rows();
        state.inv_sub_bytes();
        state.add_round_key(&round_key(&round_keys, round));
        state.inv_mix_columns();
        round = round - 1;
    }

    // The last inverse round, without InvMixColumns.
    proof {
        lemma_round_key_of_schedule(round_keys, key@, 0);
    }
    state.inv_shift_rows();
    state.inv_sub_bytes();
    state.add_round_key(&round_key(&round_keys, 0));

    state.to_bytes()
}

/// The block reached by the encryption after SubBytes and ShiftRows of round
/// `n + 1` (or of the final round when `n == 9`).
spec fn after_shift(start: Seq<u8>, key: Seq<u8>, n: nat) -> Seq<u8> {
    shift_rows_spec(sub_bytes_spec(encrypt_rounds(start, key, n)))
}

proof fn lemma_decrypt_rounds_undo(start: Seq<u8>, key: Seq<u8>, n: nat)
    requires
        start.len() == 16,
    ensures
        decrypt_rounds(after_shift(start, key, n), key, n) == after_shift(start, key, 0),
    decreases n,
{
    if n > 0 {
        let k = round_key_spec(key, n as int);
        let g = after_shift(start, key, (n - 1) as nat);
        let m = mix_columns_spec(g);
        let e = add_round_key_spec(m, k);
        assert(encrypt_rounds(start, key, n) == e);
        lemma_shift_rows_inverse(sub_bytes_spec(e));
        lemma_sub_bytes_inverse(e);
        lemma_add_round_key_involution(m, k);
        lemma_mix_columns_inverse(g);
        assert(decrypt_round(after_shift(start, key, n), k) == g);
        lemma_decrypt_rounds_undo(start, key, (n - 1) as nat);
    }
}

/// Decryption undoes encryption: under any key, decrypting the encryption
/// of a 16-byte block gives the block back.
pub proof fn lemma_decrypt_encrypt(plaintext: Seq<u8>, key: Seq<u8>)
    requires
        plaintext.len() == 16,
    ensures
        aes128_decrypt(aes128_encrypt(plaintext, key), key) == plaintext,
{
    reveal(aes128_encrypt);
    reveal(aes128_decrypt);
    let k0 = round_key_spec(key, 0);
    let k10 = round_key_spec(key, 10);
    let start = add_round_key_spec(plaintext, k0);
    let g9 = after_shift(start, key, 9);
    lemma_add_round_key_involution(g9, k10);
    lemma_decrypt_rounds_undo(start, key, 9);
    lemma_shift_rows_inverse(sub_bytes_spec(start));
    lemma_sub_bytes_inverse(start);
    lemma_add_round_key_involution(plaintext, k0);
}

/// The state of the decryption before inverse round `m` (for `m <= 9`),
/// starting from `top` before inverse round 9.
spec fn state_before_round(top: Seq<u8>, key: Seq<u8>, m: nat) -> Seq<u8>
    decreases 9 - m,
{
    if m >= 9 {
        top
    } else {
        decrypt_round(state_before_round(top, key, m + 1), round_key_spec(key, m + 1 as int))
    }
}

proof fn lemma_decrypt_rounds_from(top: Seq<u8>, key: Seq<u8>, m: nat)
    requires
        m <= 9,
    ensures
        decrypt_rounds(state_before_round(top, key, m), key, m) == state_before_round(top, key, 0),
    decreases m,
{
    if m > 0 {
        lemma_decrypt_rounds_from(top, key, (m - 1) as nat);
    }
}

proof fn lemma_encrypt_rounds_redo(top: Seq<u8>, key: Seq<u8>, start: Seq<u8>, n: nat)
    requires
        top.len() == 16,
        n <= 9,
        start == inv_sub_bytes_spec(inv_shift_rows_spec(state_before_round(top, key, 0))),
    ensures
        shift_rows_spec(sub_bytes_spec(encrypt_rounds(start, key, n))) == state_before_round(
            top,
            key,
            n,
        ),
    decreases n,
{
    if n == 0 {
        let y0 = state_before_round(top, key, 0);
        lemma_shift_rows_inverse(y0);
        lemma_sub_bytes_inverse(inv_shift_rows_spec(y0));
    } else {
        lemma_encrypt_rounds_redo(top, key, start, (n - 1) as nat);
        let k = round_key_spec(key, n as int);
        let y = state_before_round(top, key, n);
        let u = add_round_key_spec(inv_sub_bytes_spec(inv_shift_rows_spec(y)), k);
        assert(state_before_round(top, key, (n - 1) as nat) == inv_mix_columns_spec(u));
        lemma_mix_columns_inverse(u);
        lemma_add_round_key_involution(inv_sub_bytes_spec(inv_shift_rows_spec(y)), k);
        lemma_sub_bytes_inverse(inv_shift_rows_spec(y));
        lemma_shift_rows_inverse(y);
    }
}

/// Encryption undoes decryption: under any key, encrypting the decryption
/// of a 16-byte block gives the block back (AES-128 is a permutation of the
/// blocks for each key).
pub proof fn lemma_encrypt_decrypt(ciphertext: Seq<u8>, key: Seq<u8>)
    requires
        ciphertext.len() == 16,
    ensures
        aes128_encrypt(aes128_decrypt(ciphertext, key), key) == ciphertext,
{
    reveal(aes128_encrypt);
    reveal(aes128_decrypt);
    let k0 = round_key_spec(key, 0);
    let k10 = round_key_spec(key, 10);
    let top = add_round_key_spec(ciphertext, k10);
    lemma_decrypt_rounds_from(top, key, 9);
    let y0 = state_before_round(top, key, 0);
    let start = inv_sub_bytes_spec(inv_shift_rows_spec(y0));
    lemma_add_round_key_involution(start, k0);
    lemma_encrypt_rounds_redo(top, key, start, 9);
    lemma_add_round_key_involution(ciphertext, k10);
}

/// One inverse round written out: InvShiftRows, then InvSubBytes, then
/// AddRoundKey, then InvMixColumns.
pub open spec fn inverse_round(s: Seq<u8>, k: Seq<u8>) -> Seq<u8> {
    inv_mix_columns_spec(add_round_key_spec(inv_sub_bytes_spec(inv_shift_rows_spec(s)), k))
}

/// AES-128 decryption is, for every block and key, AddRoundKey with round
/// key 10, the inverse rounds with round keys 9 down to 1 in that order, and
/// a final InvShiftRows, InvSubBytes and AddRoundKey with round key 0.
pub proof fn lemma_aes128_decrypt_unrolled(ciphertext: Seq<u8>, key: Seq<u8>)
    ensures
        aes128_decrypt(ciphertext, key) == add_round_key_spec(
            inv_sub_bytes_spec(inv_shift_rows_spec(inverse_round(
        inverse_round(
        inverse_round(
        inverse_round(
        inverse_round(
        inverse_round(
        inverse_round(
        inverse_round(
        inverse_round(
        add_round_key_spec(ciphertext, round_key_spec(key, 10)),
        round_key_spec(key, 9),
    ),
        round_key_spec(key, 8),
    ),
        round_key_spec(key, 7),
    ),
        round_key_spec(key, 6),
    ),
        round_key_spec(key, 5),
    ),
        round_key_spec(key, 4),
    ),
        round_key_spec(key, 3),
    ),
        round_key_spec(key, 2),
    ),
        round_key_spec(key, 1),
    ))),
            round_key_spec(key, 0),
        ),
{
    reveal(aes128_decrypt);
    reveal_with_fuel(decrypt_rounds, 10);
}

} // verus!
