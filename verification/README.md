# aes_rust_lab

AES-128 (FIPS-197) and AES-128-CBC with PKCS#7 padding, written in Verus and
proved against a mathematical model.

- `src/aes_core/gf256.rs`: arithmetic in GF(2^8); multiplication is modelled
  as `a * b = sum of a * x^k over the set bits k of b`. Proved: commutativity,
  associativity, distributivity, `a^255 = 1` for `a != 0`, exponents modulo
  255, `a * inv(a) = 1`, inversion is an involution.
- `src/aes_core/sbox.rs`, `inv_sbox.rs`, `constants.rs`: the S-box as
  inversion followed by the affine map, its inverse, and the lookup tables,
  proved equal to the algebraic definitions for every byte.
- `src/aes_core/state.rs`, `transformations.rs`, `inv_transformations.rs`:
  the 4x4 state (viewed as its 16-byte block, column by column) and the round
  transformations, each with its inverse proved.
- `src/aes_core/key_expansion.rs`, `cipher.rs`, `decrypt.rs`: the key schedule
  and the block cipher; decryption and encryption are proved to undo each
  other.
- `src/mods/cbc.rs`: PKCS#7 padding and CBC mode; decryption of an encryption
  is proved to give the message back.
- `app/main.rs`: a small demonstration program that prints intermediate values.
