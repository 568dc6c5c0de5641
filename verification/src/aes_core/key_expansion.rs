use vstd::prelude::*;
use super::constants::{lemma_rcon_table, lemma_sbox_table, rcon_spec, RCON, SBOX};
use super::sbox::sbox_spec;

verus! {

/// RotWord on a 4-byte word: one position to the left.
pub open spec fn rot_word_spec(w: Seq<u8>) -> Seq<u8> {
    seq![w[1], w[2], w[3], w[0]]
}

/// SubWord on a 4-byte word: the S-box on each byte.
pub open spec fn sub_word_spec(w: Seq<u8>) -> Seq<u8> {
    seq![sbox_spec(w[0]), sbox_spec(w[1]), sbox_spec(w[2]), sbox_spec(w[3])]
}

/// Byte-wise XOR of two 4-byte words.
pub open spec fn xor_words(a: Seq<u8>, b: Seq<u8>) -> Seq<u8> {
    seq![a[0] ^ b[0], a[1] ^ b[1], a[2] ^ b[2], a[3] ^ b[3]]
}

/// Word `i` of the AES-128 key schedule (FIPS-197, KeyExpansion): the first
/// four words are the key itself; afterwards `w[i] = w[i-4] XOR temp`, where
/// `temp` is `w[i-1]`, passed through RotWord, SubWord and XOR with
/// `Rcon[i/4]` when `i` is a multiple of 4.
pub open spec fn key_word(key: Seq<u8>, i: nat) -> Seq<u8>
    decreases i,
{
    if i < 4 {
        key.subrange(4 * i as int, 4 * i as int + 4)
    } else {
        let prev = key_word(key, (i - 1) as nat);
        let temp = if i % 4 == 0 {
            let t = sub_word_spec(rot_word_spec(prev));
            t.update(0, t[0] ^ rcon_spec(i as int / 4))
        } else {
            prev
        };
        xor_words(key_word(key, (i - 4) as nat), temp)
    }
}

/// The key schedule byte by byte, as FIPS-197 gives it, for every 16-byte key:
/// words 0 to 3 are the key; for `i` a multiple of 4, byte `b` of word `i` is
/// byte `b` of word `i - 4` XOR the S-box of byte `(b + 1) % 4` of word
/// `i - 1` (RotWord then SubWord), and byte 0 is further XORed with
/// `RCON[i / 4]`; for the other `i`, word `i` is word `i - 4` XOR word `i - 1`.
pub proof fn lemma_key_schedule_bytes(key: Seq<u8>, i: nat, b: int)
    requires
        key.len() == 16,
        i < 44,
        0 <= b < 4,
    ensures
        key_word(key, i).len() == 4,
        i < 4 ==> key_word(key, i)[b] == key[4 * i + b],
        4 <= i && i % 4 == 0 && b == 0 ==> key_word(key, i)[b] == key_word(key, (i - 4) as nat)[b]
            ^ (SBOX[key_word(key, (i - 1) as nat)[1] as int] ^ RCON[i as int / 4]),
        4 <= i && i % 4 == 0 && b != 0 ==> key_word(key, i)[b] == key_word(key, (i - 4) as nat)[b]
            ^ SBOX[key_word(key, (i - 1) as nat)[(b + 1) % 4] as int],
        4 <= i && i % 4 != 0 ==> key_word(key, i)[b] == key_word(key, (i - 4) as nat)[b] ^ key_word(
            key,
            (i - 1) as nat,
        )[b],
{
    if i >= 4 {
        let prev = key_word(key, (i - 1) as nat);
        lemma_sbox_table(prev[(b + 1) % 4]);
        if i % 4 == 0 {
            lemma_rcon_table(i as int / 4);
        }
    }
}

/// RotWord: rotates a 4-byte word one position to the left.
pub fn rot_word(word: [u8; 4]) -> (r: [u8; 4])
    ensures
        r@ == rot_word_spec(word@),
        forall|b: int| 0 <= b < 4 ==> r[b] == word[(b + 1) % 4],
{
    let r = [word[1], word[2], word[3], word[0]];
    assert(r@ =~= rot_word_spec(word@));
    r
}

/// SubWord: applies the S-box to each of the 4 bytes of a word.
pub fn sub_word(word: [u8; 4]) -> (r: [u8; 4])
    ensures
        r@ == sub_word_spec(word@),
        forall|b: int| 0 <= b < 4 ==> r[b] == SBOX[word[b] as int] && r[b] == sbox_spec(word[b]),
{
    proof {
        lemma_sbox_table(word[0]);
        lemma_sbox_table(word[1]);
        lemma_sbox_table(word[2]);
        lemma_sbox_table(word[3]);
    }
    let r = [
        SBOX[word[0] as usize],
        SBOX[word[1] as usize],
        SBOX[word[2] as usize],
        SBOX[word[3] as usize],
    ];
    assert(r@ =~= sub_word_spec(word@));
    r
}

/// Derives the 44 four-byte words of the AES-128 key schedule from the
/// 16-byte key.
pub fn key_expansion(key: [u8; 16]) -> (words: [[u8; 4]; 44])
    ensures
        forall|i: int| 0 <= i < 44 ==> (#[trigger] words[i])@ == key_word(key@, i as nat),
        forall|i: int, b: int| 0 <= i < 4 && 0 <= b < 4 ==> #[trigger] words[i][b] == key[4 * i + b],
        forall|i: int, b: int|
            4 <= i < 44 && i % 4 == 0 && b == 0 ==> #[trigger] words[i][b] == words[i - 4][b] ^ (
            SBOX[words[i - 1][1] as int] ^ RCON[i as int / 4]),
        forall|i: int, b: int|
            4 <= i < 44 && i % 4 == 0 && 0 < b < 4 ==> #[trigger] words[i][b] == words[i - 4][b]
                ^ SBOX[words[i - 1][(b + 1) % 4] as int],
        forall|i: int, b: int|
            4 <= i < 44 && i % 4 != 0 && 0 <= b < 4 ==> #[trigger] words[i][b] == words[i - 4][b]
                ^ words[i - 1][b],
{
    let mut words: [[u8; 4]; 44] = [[0u8; 4]; 44];

    for i in 0..4usize
        invariant
            forall|j: int| 0 <= j < i ==> (#[trigger] words[j])@ == key_word(key@, j as nat),
    {
        words[i] = [key[4 * i], key[4 * i + 1], key[4 * i + 2], key[4 * i + 3]];
        assert(words[i as int]@ =~= key_word(key@, i as nat));
    }

    for i in 4..44usize
        invariant
            forall|j: int| 0 <= j < i ==> (#[trigger] words[j])@ == key_word(key@, j as nat),
    {
        let mut temp = words[i - 1];
        let ghost prev = temp@;

        if i % 4 == 0 {
            proof {
                lemma_rcon_table((i / 4) as int);
            }
            temp = sub_word(rot_word(temp));
            temp[0] = temp[0] ^ RCON[i / 4];
        }
        let ghost expected = key_word(key@, i as nat);
        words[i] = [
            words[i - 4][0] ^ temp[0],
            words[i - 4][1] ^ temp[1],
            words[i - 4][2] ^ temp[2],
            words[i - 4][3] ^ temp[3],
        ];
        assert(words[i as int]@ =~= expected);
    }

    proof {
        assert forall|i: int, b: int| 0 <= i < 44 && 0 <= b < 4 implies {
            &&& i < 4 ==> #[trigger] words[i][b] == key[4 * i + b]
            &&& 4 <= i && i % 4 == 0 && b == 0 ==> words[i][b] == words[i - 4][b] ^ (
            SBOX[words[i - 1][1] as int] ^ RCON[i / 4])
            &&& 4 <= i && i % 4 == 0 && b != 0 ==> words[i][b] == words[i - 4][b]
                ^ SBOX[words[i - 1][(b + 1) % 4] as int]
            &&& 4 <= i && i % 4 != 0 ==> words[i][b] == words[i - 4][b] ^ words[i - 1][b]
        } by {
            lemma_key_schedule_bytes(key@, i as nat, b);
            assert(words[i]@ == key_word(key@, i as nat));
            if i >= 4 {
                assert(words[i - 4]@ == key_word(key@, (i - 4) as nat));
                assert(words[i - 1]@ == key_word(key@, (i - 1) as nat));
            }
        }
    }
    words
}

} // verus!
