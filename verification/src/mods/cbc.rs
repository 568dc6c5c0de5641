use vstd::prelude::*;
use crate::aes_core::cipher::{aes128_encrypt, encrypt, lemma_aes128_encrypt_len};
use crate::aes_core::decrypt::{aes128_decrypt, decrypt, lemma_decrypt_encrypt};
use crate::aes_core::inv_transformations::lemma_xor_twice;

verus! {

// ---------------------------------------------------------------------------
// PKCS#7 padding
// ---------------------------------------------------------------------------

/// PKCS#7 padding to a multiple of 16 bytes: `p = 16 - len % 16` bytes
/// (between 1 and 16), each of value `p`, are appended.
pub open spec fn pkcs7_pad(data: Seq<u8>) -> Seq<u8> {
    let p = 16 - data.len() % 16;
    data + Seq::new(p as nat, |i: int| p as u8)
}

/// Whether `data` is a non-empty multiple of 16 bytes ending in a valid
/// PKCS#7 padding: its last byte `p` is between 1 and 16 and the last `p`
/// bytes all equal `p`.
pub open spec fn pkcs7_valid(data: Seq<u8>) -> bool {
    &&& data.len() > 0
    &&& data.len() % 16 == 0
    &&& 1 <= data.last() <= 16
    &&& data.last() <= data.len()
    &&& forall|i: int| data.len() - data.last() <= i < data.len() ==> data[i] == data.last()
}

/// `data` with its padding (as many bytes as its last byte says) removed.
pub open spec fn pkcs7_unpad(data: Seq<u8>) -> Seq<u8> {
    data.subrange(0, data.len() - data.last())
}

/// Padding gives a valid padding, of `(len / 16 + 1) * 16` bytes, and
/// removing it gives the data back.
pub proof fn lemma_pkcs7_round_trip(data: Seq<u8>)
    ensures
        pkcs7_pad(data).len() == (data.len() / 16 + 1) * 16,
        pkcs7_pad(data).len() % 16 == 0,
        data.len() < pkcs7_pad(data).len() <= data.len() + 16,
        pkcs7_pad(data).subrange(0, data.len() as int) == data,
        forall|i: int|
            data.len() <= i < pkcs7_pad(data).len() ==> pkcs7_pad(data)[i] as int == pkcs7_pad(
                data,
            ).len() - data.len(),
        pkcs7_valid(pkcs7_pad(data)),
        pkcs7_unpad(pkcs7_pad(data)) == data,
{
    let padded = pkcs7_pad(data);
    let p = 16 - data.len() % 16;
    assert(padded.len() == data.len() + p);
    assert(padded.last() == p as u8);
    assert(padded.subrange(0, padded.len() - p) =~= data);
    assert(padded.subrange(0, data.len() as int) =~= data);
}

/// A valid padding is exactly one that padding produces: `data` passes the
/// check if and only if it is the padding of some message, and that message
/// is `data` with its padding removed.
pub proof fn lemma_pkcs7_valid_iff_padded(data: Seq<u8>)
    ensures
        pkcs7_valid(data) <==> data == pkcs7_pad(pkcs7_unpad(data)),
        pkcs7_valid(data) <==> exists|m: Seq<u8>| data == pkcs7_pad(m),
{
    if pkcs7_valid(data) {
        let n = data.len();
        let p = data.last() as int;
        let m = pkcs7_unpad(data);
        assert(m.len() == n - p);
        assert((n - p) % 16 == (16 - p) % 16) by {
            vstd::arithmetic::div_mod::lemma_mod_sub_multiples_vanish((n - p + 16) as int, 16);
            vstd::arithmetic::div_mod::lemma_fundamental_div_mod(n as int, 16);
            vstd::arithmetic::div_mod::lemma_mod_multiples_vanish((n / 16) as int, (16 - p) as int, 16);
        }
        assert(16 - m.len() % 16 == p);
        assert(data =~= pkcs7_pad(m));
        assert(data == pkcs7_pad(m));
    }
    if exists|m: Seq<u8>| data == pkcs7_pad(m) {
        let m = choose|m: Seq<u8>| data == pkcs7_pad(m);
        lemma_pkcs7_round_trip(m);
    }
    if data == pkcs7_pad(pkcs7_unpad(data)) {
        lemma_pkcs7_round_trip(pkcs7_unpad(data));
    }
}

/// Appends a PKCS#7 padding to the plaintext: between 1 and 16 bytes, so
/// that the length becomes a multiple of 16; each byte added holds the
/// number of bytes added.
pub fn pad(plaintext: &[u8]) -> (data: Vec<u8>)
    ensures
        data@ == pkcs7_pad(plaintext@),
        data@.len() % 16 == 0,
        plaintext@.len() < data@.len() <= plaintext@.len() + 16,
        data@.subrange(0, plaintext@.len() as int) == plaintext@,
        forall|i: int|
            plaintext@.len() <= i < data@.len() ==> data@[i] as int == data@.len() - plaintext@.len(),
{
    proof {
        lemma_pkcs7_round_trip(plaintext@);
    }
    let n = plaintext.len();
    let mut data: Vec<u8> = Vec::new();
    for i in 0..n
        invariant
            n == plaintext@.len(),
            data@ == plaintext@.subrange(0, i as int),
    {
        data.push(plaintext[i]);
    }
    let pad = 16 - (n % 16);

    for i in 0..pad
        invariant
            n == plaintext@.len(),
            pad == 16 - n % 16,
            data@ == plaintext@ + Seq::new(i as nat, |k: int| pad as u8),
    {
        data.push(pad as u8);
        assert(data@ =~= plaintext@ + Seq::new((i + 1) as nat, |k: int| pad as u8));
    }
    assert(plaintext@.subrange(0, n as int) =~= plaintext@);
    data
}

/// Checks and removes a PKCS#7 padding. The last byte gives the size of the
/// padding, and all the bytes of the padding must hold that same value; an
/// error is returned when the padding is not valid.
pub fn inv_pad(ciphertext: &[u8]) -> (r: Result<Vec<u8>, &'static str>)
    ensures
        match r {
            Ok(v) => pkcs7_valid(ciphertext@) && v@ == pkcs7_unpad(ciphertext@) && ciphertext@
                == pkcs7_pad(v@),
            Err(e) => !pkcs7_valid(ciphertext@) && (forall|m: Seq<u8>|
                ciphertext@ != #[trigger] pkcs7_pad(m)) && (if ciphertext@.len() == 0 {
                e@ == "padding invalide : données vides"@
            } else {
                e@ == "padding invalide"@
            }),
        },
{
    proof {
        lemma_pkcs7_valid_iff_padded(ciphertext@);
    }
    if ciphertext.is_empty() {
        return Err("padding invalide : données vides");
    }
    if ciphertext.len() % 16 != 0 {
        return Err("padding invalide");
    }

    let n = ciphertext.len();
    let pad = ciphertext[n - 1] as usize;

    if pad == 0 || pad > 16 {
        return Err("padding invalide");
    }

    if pad > n {
        return Err("padding invalide");
    }

    for i in (n - pad)..n
        invariant
            n == ciphertext@.len(),
            n > 0,
            pad == ciphertext@.last(),
            pad <= n,
            forall|j: int| n - pad <= j < i ==> ciphertext@[j] == pad as u8,
    {
        if ciphertext[i] != pad as u8 {
            return Err("padding invalide");
        }
    }

    let mut out: Vec<u8> = Vec::new();
    for i in 0..n - pad
        invariant
            n == ciphertext@.len(),
            pad <= n,
            out@ == ciphertext@.subrange(0, i as int),
    {
        out.push(ciphertext[i]);
    }
    Ok(out)
}

// ---------------------------------------------------------------------------
// CBC mode
// ---------------------------------------------------------------------------

/// Byte-wise XOR of two 16-byte blocks.
pub open spec fn xor_block(a: Seq<u8>, b: Seq<u8>) -> Seq<u8> {
    Seq::new(16, |i: int| a[i] ^ b[i])
}

/// Block `j` (bytes `16 j` to `16 j + 15`) of `data`.
pub open spec fn block_at(data: Seq<u8>, j: int) -> Seq<u8> {
    data.subrange(16 * j, 16 * j + 16)
}

/// Ciphertext block `j` of CBC over the (already padded) `data`:
/// `C_j = AES(P_j XOR C_(j-1))`, with `C_(-1) = iv`.
pub open spec fn cbc_encrypt_block(data: Seq<u8>, iv: Seq<u8>, key: Seq<u8>, j: nat) -> Seq<u8>
    decreases j,
{
    let prev = if j == 0 {
        iv
    } else {
        cbc_encrypt_block(data, iv, key, (j - 1) as nat)
    };
    aes128_encrypt(xor_block(block_at(data, j as int), prev), key)
}

/// The first `n` ciphertext blocks of CBC over `data`, concatenated.
pub open spec fn cbc_encrypt_blocks(data: Seq<u8>, iv: Seq<u8>, key: Seq<u8>, n: nat) -> Seq<u8>
    decreases n,
{
    if n == 0 {
        Seq::empty()
    } else {
        cbc_encrypt_blocks(data, iv, key, (n - 1) as nat) + cbc_encrypt_block(
            data,
            iv,
            key,
            (n - 1) as nat,
        )
    }
}

/// AES-128-CBC encryption of a message: PKCS#7 padding, then CBC over the
/// padded blocks.
pub open spec fn cbc_encrypt_spec(plaintext: Seq<u8>, iv: Seq<u8>, key: Seq<u8>) -> Seq<u8> {
    let data = pkcs7_pad(plaintext);
    cbc_encrypt_blocks(data, iv, key, data.len() / 16)
}

/// Plaintext block `j` of CBC decryption: `P_j = AES^-1(C_j) XOR C_(j-1)`,
/// with `C_(-1) = iv`.
pub open spec fn cbc_decrypt_block(ciphertext: Seq<u8>, iv: Seq<u8>, key: Seq<u8>, j: int) -> Seq<
    u8,
> {
    let prev = if j == 0 {
        iv
    } else {
        block_at(ciphertext, j - 1)
    };
    xor_block(aes128_decrypt(block_at(ciphertext, j), key), prev)
}

/// The first `n` plaintext blocks of CBC decryption, concatenated (padding
/// still in place).
pub open spec fn cbc_decrypt_blocks(ciphertext: Seq<u8>, iv: Seq<u8>, key: Seq<u8>, n: nat) -> Seq<
    u8,
>
    decreases n,
{
    if n == 0 {
        Seq::empty()
    } else {
        cbc_decrypt_blocks(ciphertext, iv, key, (n - 1) as nat) + cbc_decrypt_block(
            ciphertext,
            iv,
            key,
            n - 1,
        )
    }
}

proof fn lemma_cbc_encrypt_blocks_len(data: Seq<u8>, iv: Seq<u8>, key: Seq<u8>, n: nat)
    ensures
        cbc_encrypt_blocks(data, iv, key, n).len() == 16 * n,
    decreases n,
{
    if n > 0 {
        lemma_cbc_encrypt_blocks_len(data, iv, key, (n - 1) as nat);
        let j = (n - 1) as nat;
        let prev = if j == 0 {
            iv
        } else {
            cbc_encrypt_block(data, iv, key, (j - 1) as nat)
        };
        lemma_aes128_encrypt_len(xor_block(block_at(data, j as int), prev), key);
    }
}

/// Appends the 16 bytes of `block` to `out`.
fn append_block(out: &mut Vec<u8>, block: &[u8; 16])
    ensures
        final(out)@ == old(out)@ + block@,
{
    out.extend_from_slice(block);
    assert(out@ =~= old(out)@ + block@);
}

/// Encrypts a message with AES-128 in CBC mode. The plaintext is first
/// padded with PKCS#7; then `C1 = AES(P1 XOR IV)` and `Ci = AES(Pi XOR
/// C(i-1))` for the following blocks.
pub fn cbc_encrypt(plaintext: &[u8], iv: [u8; 16], key: [u8; 16]) -> (ciphertext: Vec<u8>)
    ensures
        ciphertext@ == cbc_encrypt_spec(plaintext@, iv@, key@),
        ciphertext@.len() == (plaintext@.len() / 16 + 1) * 16,
        forall|j: int|
            0 <= j < ciphertext@.len() / 16 ==> #[trigger] block_at(ciphertext@, j) == aes128_encrypt(
                xor_block(
                    block_at(pkcs7_pad(plaintext@), j),
                    if j == 0 { iv@ } else { block_at(ciphertext@, j - 1) },
                ),
                key@,
            ),
{
    let mut ciphertext: Vec<u8> = Vec::new();

    let l = pad(plaintext);
    let n = l.len();
    let k = n / 16;
    proof {
        lemma_pkcs7_round_trip(plaintext@);
        assert(k >= 1);
        assert(n == 16 * k);
    }

    let mut new_data: [u8; 16] = [0u8; 16];

    for i in 0..16usize
        invariant
            n == l@.len(),
            n >= 16,
            forall|t: int| 0 <= t < i ==> new_data[t] == l@[t] ^ iv[t],
    {
        new_data[i] = l[i] ^ iv[i];
    }
    assert(new_data@ =~= xor_block(block_at(l@, 0), iv@));

    new_data = encrypt(new_data, key);
    append_block(&mut ciphertext, &new_data);
    proof {
        reveal_with_fuel(cbc_encrypt_blocks, 2);
        assert(ciphertext@ =~= cbc_encrypt_blocks(l@, iv@, key@, 1));
    }

    for j in 1..k
        invariant
            n == l@.len(),
            n == 16 * k,
            ciphertext@ == cbc_encrypt_blocks(l@, iv@, key@, j as nat),
            new_data@ == cbc_encrypt_block(l@, iv@, key@, (j - 1) as nat),
    {
        let ghost prev = new_data@;
        for i in 0..16usize
            invariant
                n == l@.len(),
                n == 16 * k,
                j < k,
                forall|t: int| 0 <= t < i ==> new_data[t] == l@[16 * j + t] ^ prev[t],
                forall|t: int| i <= t < 16 ==> new_data[t] == prev[t],
        {
            new_data[i] = l[16 * j + i] ^ new_data[i];
        }
        assert(new_data@ =~= xor_block(block_at(l@, j as int), prev));

        new_data = encrypt(new_data, key);
        append_block(&mut ciphertext, &new_data);
    }

    proof {
        lemma_cbc_encrypt_blocks_len(l@, iv@, key@, k as nat);
        assert forall|j: int| 0 <= j < ciphertext@.len() / 16 implies #[trigger] block_at(
            ciphertext@,
            j,
        ) == aes128_encrypt(
            xor_block(
                block_at(pkcs7_pad(plaintext@), j),
                if j == 0 { iv@ } else { block_at(ciphertext@, j - 1) },
            ),
            key@,
        ) by {
            lemma_cbc_encrypt_chaining(plaintext@, iv@, key@, j);
        }
    }
    ciphertext
}

/// Decrypts a message encrypted with AES-128 in CBC mode:
/// `P1 = AES^-1(C1) XOR IV` and `Pi = AES^-1(Ci) XOR C(i-1)`; the PKCS#7
/// padding is then checked and removed. An error is returned when the
/// ciphertext is empty, is not a multiple of 16 bytes, or does not end in a
/// valid padding.
pub fn cbc_decrypt(ciphertext: &[u8], iv: [u8; 16], key: [u8; 16]) -> (r: Result<
    Vec<u8>,
    &'static str,
>)
    ensures
        ({
            let c = ciphertext@;
            let d = cbc_decrypt_blocks(c, iv@, key@, c.len() / 16);
            match r {
                Ok(v) => c.len() > 0 && c.len() % 16 == 0 && pkcs7_valid(d) && v@ == pkcs7_unpad(d)
                    && d == pkcs7_pad(v@) && cbc_encrypt_spec(v@, iv@, key@) == c,
                Err(e) => if c.len() == 0 {
                    e@ == "ciphertext vide"@
                } else if c.len() % 16 != 0 {
                    e@ == "taille du ciphertext invalide"@
                } else {
                    !pkcs7_valid(d) && e@ == "padding invalide"@
                },
            }
        }),
{
    if ciphertext.is_empty() {
        return Err("ciphertext vide");
    }

    if ciphertext.len() % 16 != 0 {
        return Err("taille du ciphertext invalide");
    }

    let mut plaintext: Vec<u8> = Vec::new();
    let l = ciphertext;

    let n = ciphertext.len();
    let k = n / 16;
    proof {
        assert(k >= 1);
        assert(n == 16 * k);
    }

    let mut bloc1 = [0u8; 16];
    for i in 0..16usize
        invariant
            n == l@.len(),
            n >= 16,
            forall|t: int| 0 <= t < i ==> bloc1[t] == l@[t],
    {
        bloc1[i] = l[i]
    }
    assert(bloc1@ =~= block_at(l@, 0));
    let mut new_data: [u8; 16] = decrypt(bloc1, key);
    let ghost dec: Seq<u8> = new_data@;
        assert(dec.len() == 16);

    for i in 0..16usize
        invariant
            forall|t: int| 0 <= t < i ==> new_data[t] == dec[t] ^ iv[t],
            forall|t: int| i <= t < 16 ==> new_data[t] == dec[t],
    {
        new_data[i] = new_data[i] ^ iv[i];
    }
    assert(new_data@ =~= cbc_decrypt_block(l@, iv@, key@, 0));

    append_block(&mut plaintext, &new_data);
    proof {
        reveal_with_fuel(cbc_decrypt_blocks, 2);
        assert(plaintext@ =~= cbc_decrypt_blocks(l@, iv@, key@, 1));
    }

    for j in 1..k
        invariant
            n == l@.len(),
            n == 16 * k,
            plaintext@ == cbc_decrypt_blocks(l@, iv@, key@, j as nat),
    {
        let mut bloc1 = [0u8; 16];
        for i in 0..16usize
            invariant
                n == l@.len(),
                n == 16 * k,
                j < k,
                forall|t: int| 0 <= t < i ==> bloc1[t] == l@[16 * j + t],
        {
            bloc1[i] = l[16 * j + i];
        }
        assert(bloc1@ =~= block_at(l@, j as int));

        new_data = decrypt(bloc1, key);
        let ghost dec: Seq<u8> = new_data@;
        assert(dec.len() == 16);

        for i in 0..16usize
            invariant
                n == l@.len(),
                n == 16 * k,
                1 <= j < k,
                forall|t: int| 0 <= t < i ==> new_data[t] == dec[t] ^ l@[16 * (j - 1) + t],
                forall|t: int| i <= t < 16 ==> new_data[t] == dec[t],
        {
            new_data[i] = new_data[i] ^ l[16 * (j - 1) + i];
        }
        assert(new_data@ =~= cbc_decrypt_block(l@, iv@, key@, j as int));

        append_block(&mut plaintext, &new_data);
    }

    let r = inv_pad(plaintext.as_slice());
    proof {
        if r is Ok {
            lemma_cbc_encrypt_decrypt(l@, iv@, key@);
        }
    }
    r
}

proof fn lemma_cbc_encrypt_blocks_prefix(data: Seq<u8>, iv: Seq<u8>, key: Seq<u8>, m: nat, j: int)
    requires
        0 <= j < m,
    ensures
        block_at(cbc_encrypt_blocks(data, iv, key, m), j) == cbc_encrypt_block(data, iv, key, j as nat),
    decreases m,
{
    lemma_cbc_encrypt_blocks_len(data, iv, key, m);
    lemma_cbc_encrypt_blocks_len(data, iv, key, (m - 1) as nat);
    let prefix = cbc_encrypt_blocks(data, iv, key, (m - 1) as nat);
    let last = cbc_encrypt_block(data, iv, key, (m - 1) as nat);
    let all = cbc_encrypt_blocks(data, iv, key, m);
    assert(all == prefix + last);
    if j < m - 1 {
        lemma_cbc_encrypt_blocks_prefix(data, iv, key, (m - 1) as nat, j);
        assert(block_at(all, j) =~= block_at(prefix, j));
    } else {
        assert(block_at(all, j) =~= last);
    }
}

proof fn lemma_xor_block_twice(x: Seq<u8>, y: Seq<u8>)
    requires
        x.len() == 16,
    ensures
        xor_block(xor_block(x, y), y) == x,
{
    assert forall|i: int| 0 <= i < 16 implies xor_block(xor_block(x, y), y)[i] == x[i] by {
        lemma_xor_twice(x[i], y[i]);
    }
    assert(xor_block(xor_block(x, y), y) =~= x);
}

proof fn lemma_cbc_decrypt_blocks_undo(data: Seq<u8>, iv: Seq<u8>, key: Seq<u8>, n: nat, m: nat)
    requires
        data.len() == 16 * n,
        m <= n,
    ensures
        cbc_decrypt_blocks(cbc_encrypt_blocks(data, iv, key, n), iv, key, m) == data.subrange(
            0,
            16 * m as int,
        ),
    decreases m,
{
    let c = cbc_encrypt_blocks(data, iv, key, n);
    if m > 0 {
        let j = m - 1;
        lemma_cbc_decrypt_blocks_undo(data, iv, key, n, (m - 1) as nat);
        lemma_cbc_encrypt_blocks_prefix(data, iv, key, n, j);
        let prev = if j == 0 {
            iv
        } else {
            lemma_cbc_encrypt_blocks_prefix(data, iv, key, n, j - 1);
            cbc_encrypt_block(data, iv, key, (j - 1) as nat)
        };
        let x = block_at(data, j);
        assert(cbc_encrypt_block(data, iv, key, j as nat) == aes128_encrypt(xor_block(x, prev), key));
        lemma_decrypt_encrypt(xor_block(x, prev), key);
        lemma_xor_block_twice(x, prev);
        assert(cbc_decrypt_block(c, iv, key, j) == x);
        assert(data.subrange(0, 16 * m as int) =~= data.subrange(0, 16 * j) + x);
    } else {
        assert(data.subrange(0, 0) =~= Seq::<u8>::empty());
    }
}

/// CBC decryption undoes CBC encryption: for every message, IV and key, the
/// ciphertext is a non-empty multiple of 16 bytes whose CBC decryption is the
/// padded message, with a valid padding whose removal gives the message back.
pub proof fn lemma_cbc_decrypt_encrypt(plaintext: Seq<u8>, iv: Seq<u8>, key: Seq<u8>)
    ensures
        ({
            let c = cbc_encrypt_spec(plaintext, iv, key);
            let d = cbc_decrypt_blocks(c, iv, key, c.len() / 16);
            &&& c.len() > 0
            &&& c.len() % 16 == 0
            &&& d == pkcs7_pad(plaintext)
            &&& pkcs7_valid(d)
            &&& pkcs7_unpad(d) == plaintext
        }),
{
    let data = pkcs7_pad(plaintext);
    lemma_pkcs7_round_trip(plaintext);
    let n = data.len() / 16;
    assert(data.len() == 16 * n);
    lemma_cbc_encrypt_blocks_len(data, iv, key, n);
    lemma_cbc_decrypt_blocks_undo(data, iv, key, n, n);
    assert(data.subrange(0, 16 * n as int) =~= data);
}

proof fn lemma_cbc_decrypt_blocks_prefix(c: Seq<u8>, iv: Seq<u8>, key: Seq<u8>, m: nat, j: int)
    requires
        0 <= j < m,
    ensures
        cbc_decrypt_blocks(c, iv, key, m).len() == 16 * m,
        block_at(cbc_decrypt_blocks(c, iv, key, m), j) == cbc_decrypt_block(c, iv, key, j),
    decreases m,
{
    let prefix = cbc_decrypt_blocks(c, iv, key, (m - 1) as nat);
    let last = cbc_decrypt_block(c, iv, key, m - 1);
    let all = cbc_decrypt_blocks(c, iv, key, m);
    assert(all == prefix + last);
    if m - 1 > 0 {
        lemma_cbc_decrypt_blocks_prefix(c, iv, key, (m - 1) as nat, 0);
    }
    assert(prefix.len() == 16 * (m - 1));
    if j < m - 1 {
        lemma_cbc_decrypt_blocks_prefix(c, iv, key, (m - 1) as nat, j);
        assert(block_at(all, j) =~= block_at(prefix, j));
    } else {
        assert(block_at(all, j) =~= last);
    }
}

/// CBC encryption chains every block with the ciphertext block before it:
/// block `j` of the ciphertext is `AES(P_j XOR C_(j-1))`, with the IV in
/// place of `C_(-1)`, where `P_j` is block `j` of the padded message; the
/// ciphertext is as long as the padded message.
pub proof fn lemma_cbc_encrypt_chaining(plaintext: Seq<u8>, iv: Seq<u8>, key: Seq<u8>, j: int)
    requires
        0 <= j < cbc_encrypt_spec(plaintext, iv, key).len() / 16,
    ensures
        ({
            let c = cbc_encrypt_spec(plaintext, iv, key);
            &&& c.len() == pkcs7_pad(plaintext).len()
            &&& block_at(c, j) == aes128_encrypt(
                xor_block(block_at(pkcs7_pad(plaintext), j), if j == 0 { iv } else { block_at(c, j - 1) }),
                key,
            )
        }),
{
    let data = pkcs7_pad(plaintext);
    let n = data.len() / 16;
    lemma_pkcs7_round_trip(plaintext);
    lemma_cbc_encrypt_blocks_len(data, iv, key, n);
    lemma_cbc_encrypt_blocks_prefix(data, iv, key, n, j);
    if j > 0 {
        lemma_cbc_encrypt_blocks_prefix(data, iv, key, n, j - 1);
    }
}

/// CBC decryption of block `j` is `AES^-1(C_j) XOR C_(j-1)`, with the IV in
/// place of `C_(-1)`, for every block of a ciphertext that is a multiple of
/// 16 bytes; the result is as long as the ciphertext.
pub proof fn lemma_cbc_decrypt_chaining(ciphertext: Seq<u8>, iv: Seq<u8>, key: Seq<u8>, j: int)
    requires
        ciphertext.len() % 16 == 0,
        0 <= j < ciphertext.len() / 16,
    ensures
        ({
            let d = cbc_decrypt_blocks(ciphertext, iv, key, ciphertext.len() / 16);
            &&& d.len() == ciphertext.len()
            &&& block_at(d, j) == xor_block(
                aes128_decrypt(block_at(ciphertext, j), key),
                if j == 0 { iv } else { block_at(ciphertext, j - 1) },
            )
        }),
{
    lemma_cbc_decrypt_blocks_prefix(ciphertext, iv, key, ciphertext.len() / 16, j);
}

proof fn lemma_cbc_encrypt_of_decrypt(c: Seq<u8>, iv: Seq<u8>, key: Seq<u8>, n: nat, m: nat)
    requires
        c.len() == 16 * n,
        m <= n,
    ensures
        cbc_encrypt_blocks(cbc_decrypt_blocks(c, iv, key, n), iv, key, m) == c.subrange(
            0,
            16 * m as int,
        ),
    decreases m,
{
    let d = cbc_decrypt_blocks(c, iv, key, n);
    if m == 0 {
        assert(c.subrange(0, 0) =~= Seq::<u8>::empty());
    } else {
        let j = m - 1;
        lemma_cbc_encrypt_of_decrypt(c, iv, key, n, (m - 1) as nat);
        lemma_cbc_decrypt_blocks_prefix(c, iv, key, n, j);
        let cj = block_at(c, j);
        let prev = if j == 0 {
            iv
        } else {
            lemma_cbc_encrypt_blocks_prefix(d, iv, key, (m - 1) as nat, j - 1);
            assert(block_at(c.subrange(0, 16 * j), j - 1) =~= block_at(c, j - 1));
            block_at(c, j - 1)
        };
        let dec = aes128_decrypt(cj, key);
        crate::aes_core::decrypt::lemma_aes128_decrypt_len(cj, key);
        assert(block_at(d, j) == xor_block(dec, prev));
        lemma_xor_block_twice(dec, prev);
        crate::aes_core::decrypt::lemma_encrypt_decrypt(cj, key);
        assert(cbc_encrypt_block(d, iv, key, j as nat) == cj);
        assert(c.subrange(0, 16 * m as int) =~= c.subrange(0, 16 * j) + cj);
    }
}

/// Whenever CBC decryption succeeds, encrypting its result with the same IV
/// and key gives the ciphertext back.
pub proof fn lemma_cbc_encrypt_decrypt(ciphertext: Seq<u8>, iv: Seq<u8>, key: Seq<u8>)
    requires
        ciphertext.len() % 16 == 0,
        pkcs7_valid(cbc_decrypt_blocks(ciphertext, iv, key, ciphertext.len() / 16)),
    ensures
        cbc_encrypt_spec(
            pkcs7_unpad(cbc_decrypt_blocks(ciphertext, iv, key, ciphertext.len() / 16)),
            iv,
            key,
        ) == ciphertext,
{
    let n = ciphertext.len() / 16;
    let d = cbc_decrypt_blocks(ciphertext, iv, key, n);
    lemma_pkcs7_valid_iff_padded(d);
    lemma_cbc_decrypt_blocks_prefix(ciphertext, iv, key, n, 0);
    lemma_cbc_encrypt_of_decrypt(ciphertext, iv, key, n, n);
    assert(ciphertext.subrange(0, 16 * n as int) =~= ciphertext);
}

} // verus!
