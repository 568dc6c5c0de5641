use vstd::prelude::*;

verus! {

// ---------------------------------------------------------------------------
// Mathematical model of GF(2^8) = GF(2)[x] / (x^8 + x^4 + x^3 + x + 1)
// ---------------------------------------------------------------------------

/// Multiplication by `x` (the byte 0x02): shift left, and reduce by the AES
/// polynomial (its low byte is 0x1b) when the degree-7 bit falls out.
pub open spec fn xtime_spec(v: u8) -> u8 {
    if v & 0x80 != 0 {
        (v << 1) ^ 0x1b
    } else {
        v << 1
    }
}

/// `xtime_spec` applied `k` times: the byte `a * x^k`.
pub open spec fn xtime_n(a: u8, k: nat) -> u8
    decreases k,
{
    if k == 0 {
        a
    } else {
        xtime_spec(xtime_n(a, (k - 1) as nat))
    }
}

/// The sum (XOR) of those `a_k` for which bit `k` of `b` is set.
pub open spec fn select_xor(
    a0: u8,
    a1: u8,
    a2: u8,
    a3: u8,
    a4: u8,
    a5: u8,
    a6: u8,
    a7: u8,
    b: u8,
) -> u8 {
    (if b & 0x01 != 0 { a0 } else { 0u8 })
        ^ (if b & 0x02 != 0 { a1 } else { 0u8 })
        ^ (if b & 0x04 != 0 { a2 } else { 0u8 })
        ^ (if b & 0x08 != 0 { a3 } else { 0u8 })
        ^ (if b & 0x10 != 0 { a4 } else { 0u8 })
        ^ (if b & 0x20 != 0 { a5 } else { 0u8 })
        ^ (if b & 0x40 != 0 { a6 } else { 0u8 })
        ^ (if b & 0x80 != 0 { a7 } else { 0u8 })
}

/// The product `a * b` in GF(2^8): since `b = sum of b_k x^k`, the product is
/// the sum of `a * x^k` over the bits `b_k` that are set.
pub open spec fn gf_mul(a: u8, b: u8) -> u8 {
    let a1 = xtime_spec(a);
    let a2 = xtime_spec(a1);
    let a3 = xtime_spec(a2);
    let a4 = xtime_spec(a3);
    let a5 = xtime_spec(a4);
    let a6 = xtime_spec(a5);
    let a7 = xtime_spec(a6);
    select_xor(a, a1, a2, a3, a4, a5, a6, a7, b)
}

/// `a^k` in GF(2^8): `a^0 = 1` and `a^(k+1) = a^k * a`.
pub open spec fn gf_pow(a: u8, k: nat) -> u8
    decreases k,
{
    if k == 0 {
        1
    } else {
        gf_mul(gf_pow(a, (k - 1) as nat), a)
    }
}

/// The value computed for the multiplicative inverse: `a^254`, and 0 for 0.
pub open spec fn gf_inv(a: u8) -> u8 {
    if a == 0 {
        0
    } else {
        gf_pow(a, 254)
    }
}

/// The first `k` steps of the shift-and-add multiplication:
/// the sum of `a * x^j` over the bits `j < k` of `b` that are set.
pub open spec fn mul_partial(a: u8, b: u8, k: nat) -> u8
    decreases k,
{
    if k == 0 {
        0
    } else {
        let p = mul_partial(a, b, (k - 1) as nat);
        if (b >> ((k - 1) as u8)) & 1 != 0 {
            p ^ xtime_n(a, (k - 1) as nat)
        } else {
            p
        }
    }
}

/// Squaring.
pub open spec fn gf_square(a: u8) -> u8 {
    gf_mul(a, a)
}

/// `a^254` as the product `a^2 * a^4 * ... * a^128` of repeated squares.
#[verifier::opaque]
pub open spec fn inv_chain(a: u8) -> u8 {
    let s1 = gf_square(a);
    let s2 = gf_square(s1);
    let s3 = gf_square(s2);
    let s4 = gf_square(s3);
    let s5 = gf_square(s4);
    let s6 = gf_square(s5);
    let s7 = gf_square(s6);
    gf_mul(gf_mul(gf_mul(gf_mul(gf_mul(gf_mul(s1, s2), s3), s4), s5), s6), s7)
}

/// Whether `a` times its chained inverse is one (or `a` is zero).
#[verifier::opaque]
spec fn chain_inverts(a: u8) -> bool {
    a == 0 || gf_mul(a, inv_chain(a)) == 1
}

// ---------------------------------------------------------------------------
// Bit-level facts
// ---------------------------------------------------------------------------

proof fn lemma_select_xor_linear(a0: u8, a1: u8, a2: u8, a3: u8, a4: u8, a5: u8, a6: u8, a7: u8, b: u8, d: u8)
    by (bit_vector)
    ensures
        select_xor(a0, a1, a2, a3, a4, a5, a6, a7, b ^ d) == select_xor(a0, a1, a2, a3, a4, a5, a6, a7, b) ^ select_xor(a0, a1, a2, a3, a4, a5, a6, a7, d),
{
}

proof fn lemma_xtime_select_xor(a0: u8, a1: u8, a2: u8, a3: u8, a4: u8, a5: u8, a6: u8, a7: u8, b: u8)
    by (bit_vector)
    ensures
        xtime_spec(select_xor(a0, a1, a2, a3, a4, a5, a6, a7, b)) == select_xor(xtime_spec(a0), xtime_spec(a1), xtime_spec(a2), xtime_spec(a3), xtime_spec(a4), xtime_spec(a5), xtime_spec(a6), xtime_spec(a7), b),
{
}

proof fn lemma_xtime_eighth(a0: u8, a1: u8, a2: u8, a3: u8, a4: u8, a5: u8, a6: u8, a7: u8, a8: u8)
    by (bit_vector)
    requires
        a1 == xtime_spec(a0),
        a2 == xtime_spec(a1),
        a3 == xtime_spec(a2),
        a4 == xtime_spec(a3),
        a5 == xtime_spec(a4),
        a6 == xtime_spec(a5),
        a7 == xtime_spec(a6),
        a8 == xtime_spec(a7),
    ensures
        a8 == a4 ^ a3 ^ a1 ^ a0,
{
}

proof fn lemma_select_xor_xtime_arg(a0: u8, a1: u8, a2: u8, a3: u8, a4: u8, a5: u8, a6: u8, a7: u8, a8: u8, b: u8)
    by (bit_vector)
    requires
        a8 == a4 ^ a3 ^ a1 ^ a0,
    ensures
        select_xor(a0, a1, a2, a3, a4, a5, a6, a7, xtime_spec(b)) == select_xor(a1, a2, a3, a4, a5, a6, a7, a8, b),
{
}

#[verifier::rlimit(50)]
proof fn lemma_select_xor_swap(a0: u8, a1: u8, a2: u8, a3: u8, a4: u8, a5: u8, a6: u8, a7: u8, b0: u8, b1: u8, b2: u8, b3: u8, b4: u8, b5: u8, b6: u8, b7: u8)
    by (bit_vector)
    requires
        a1 == xtime_spec(a0),
        a2 == xtime_spec(a1),
        a3 == xtime_spec(a2),
        a4 == xtime_spec(a3),
        a5 == xtime_spec(a4),
        a6 == xtime_spec(a5),
        a7 == xtime_spec(a6),
        b1 == xtime_spec(b0),
        b2 == xtime_spec(b1),
        b3 == xtime_spec(b2),
        b4 == xtime_spec(b3),
        b5 == xtime_spec(b4),
        b6 == xtime_spec(b5),
        b7 == xtime_spec(b6),
    ensures
        select_xor(a0, a1, a2, a3, a4, a5, a6, a7, b0) == select_xor(b0, b1, b2, b3, b4, b5, b6, b7, a0),
{
}

proof fn lemma_select_xor_basis(a0: u8, a1: u8, a2: u8, a3: u8, a4: u8, a5: u8, a6: u8, a7: u8)
    by (bit_vector)
    ensures
        select_xor(a0, a1, a2, a3, a4, a5, a6, a7, 0) == 0,
        select_xor(a0, a1, a2, a3, a4, a5, a6, a7, 1) == a0,
        select_xor(a0, a1, a2, a3, a4, a5, a6, a7, 2) == a1,
        select_xor(a0, a1, a2, a3, a4, a5, a6, a7, 4) == a2,
        select_xor(a0, a1, a2, a3, a4, a5, a6, a7, 8) == a3,
        select_xor(a0, a1, a2, a3, a4, a5, a6, a7, 16) == a4,
        select_xor(a0, a1, a2, a3, a4, a5, a6, a7, 32) == a5,
        select_xor(a0, a1, a2, a3, a4, a5, a6, a7, 64) == a6,
        select_xor(a0, a1, a2, a3, a4, a5, a6, a7, 128) == a7,
{
}

proof fn lemma_byte_bits(c: u8)
    by (bit_vector)
    ensures
        c == (c & 1) ^ (c & 2) ^ (c & 4) ^ (c & 8) ^ (c & 16) ^ (c & 32) ^ (c & 64) ^ (c & 128),
        c & 1 == 0 || c & 1 == 1,
        c & 2 == 0 || c & 2 == 2,
        c & 4 == 0 || c & 4 == 4,
        c & 8 == 0 || c & 8 == 8,
        c & 16 == 0 || c & 16 == 16,
        c & 32 == 0 || c & 32 == 32,
        c & 64 == 0 || c & 64 == 64,
        c & 128 == 0 || c & 128 == 128,
{
}

proof fn lemma_mul_partial_bits(a0: u8, a1: u8, a2: u8, a3: u8, a4: u8, a5: u8, a6: u8, a7: u8, b: u8, p1: u8, p2: u8, p3: u8, p4: u8, p5: u8, p6: u8, p7: u8, p8: u8)
    by (bit_vector)
    requires
        p1 == (if (b >> 0u8) & 1 != 0 { 0u8 ^ a0 } else { 0u8 }),
        p2 == (if (b >> 1u8) & 1 != 0 { p1 ^ a1 } else { p1 }),
        p3 == (if (b >> 2u8) & 1 != 0 { p2 ^ a2 } else { p2 }),
        p4 == (if (b >> 3u8) & 1 != 0 { p3 ^ a3 } else { p3 }),
        p5 == (if (b >> 4u8) & 1 != 0 { p4 ^ a4 } else { p4 }),
        p6 == (if (b >> 5u8) & 1 != 0 { p5 ^ a5 } else { p5 }),
        p7 == (if (b >> 6u8) & 1 != 0 { p6 ^ a6 } else { p6 }),
        p8 == (if (b >> 7u8) & 1 != 0 { p7 ^ a7 } else { p7 }),
    ensures
        p8 == select_xor(a0, a1, a2, a3, a4, a5, a6, a7, b),
{
}

// ---------------------------------------------------------------------------
// Field laws
// ---------------------------------------------------------------------------

/// Zero and one: `a * 0 == 0`, `a * 1 == a`, and `a * x^k` for the basis bytes.
pub proof fn lemma_gf_mul_basis(a: u8)
    ensures
        gf_mul(a, 0) == 0,
        gf_mul(a, 1) == a,
        gf_mul(a, 2) == xtime_n(a, 1),
        gf_mul(a, 4) == xtime_n(a, 2),
        gf_mul(a, 8) == xtime_n(a, 3),
        gf_mul(a, 16) == xtime_n(a, 4),
        gf_mul(a, 32) == xtime_n(a, 5),
        gf_mul(a, 64) == xtime_n(a, 6),
        gf_mul(a, 128) == xtime_n(a, 7),
{
    reveal_with_fuel(xtime_n, 8);
    let a1 = xtime_spec(a);
    let a2 = xtime_spec(a1);
    let a3 = xtime_spec(a2);
    let a4 = xtime_spec(a3);
    let a5 = xtime_spec(a4);
    let a6 = xtime_spec(a5);
    let a7 = xtime_spec(a6);
    lemma_select_xor_basis(a, a1, a2, a3, a4, a5, a6, a7);
}

/// Multiplication is commutative.
pub proof fn lemma_gf_mul_commutative(a: u8, b: u8)
    ensures
        gf_mul(a, b) == gf_mul(b, a),
{
    let a1 = xtime_spec(a);
    let a2 = xtime_spec(a1);
    let a3 = xtime_spec(a2);
    let a4 = xtime_spec(a3);
    let a5 = xtime_spec(a4);
    let a6 = xtime_spec(a5);
    let a7 = xtime_spec(a6);
    let b1 = xtime_spec(b);
    let b2 = xtime_spec(b1);
    let b3 = xtime_spec(b2);
    let b4 = xtime_spec(b3);
    let b5 = xtime_spec(b4);
    let b6 = xtime_spec(b5);
    let b7 = xtime_spec(b6);
    lemma_select_xor_swap(a, a1, a2, a3, a4, a5, a6, a7, b, b1, b2, b3, b4, b5, b6, b7);
}

/// Multiplication distributes over addition (XOR) in its second argument.
pub proof fn lemma_gf_mul_distributes(a: u8, b: u8, d: u8)
    ensures
        gf_mul(a, b ^ d) == gf_mul(a, b) ^ gf_mul(a, d),
{
    let a1 = xtime_spec(a);
    let a2 = xtime_spec(a1);
    let a3 = xtime_spec(a2);
    let a4 = xtime_spec(a3);
    let a5 = xtime_spec(a4);
    let a6 = xtime_spec(a5);
    let a7 = xtime_spec(a6);
    lemma_select_xor_linear(a, a1, a2, a3, a4, a5, a6, a7, b, d);
}

/// Multiplying the second factor by `x` multiplies the product by `x`.
proof fn lemma_gf_mul_xtime_right(a: u8, b: u8)
    ensures
        gf_mul(a, xtime_spec(b)) == xtime_spec(gf_mul(a, b)),
{
    let a1 = xtime_spec(a);
    let a2 = xtime_spec(a1);
    let a3 = xtime_spec(a2);
    let a4 = xtime_spec(a3);
    let a5 = xtime_spec(a4);
    let a6 = xtime_spec(a5);
    let a7 = xtime_spec(a6);
    let a8 = xtime_spec(a7);
    lemma_xtime_eighth(a, a1, a2, a3, a4, a5, a6, a7, a8);
    lemma_select_xor_xtime_arg(a, a1, a2, a3, a4, a5, a6, a7, a8, b);
    lemma_xtime_select_xor(a, a1, a2, a3, a4, a5, a6, a7, b);
}

proof fn lemma_gf_mul_xtime_n_right(a: u8, b: u8, k: nat)
    ensures
        gf_mul(a, xtime_n(b, k)) == xtime_n(gf_mul(a, b), k),
    decreases k,
{
    if k > 0 {
        lemma_gf_mul_xtime_n_right(a, b, (k - 1) as nat);
        lemma_gf_mul_xtime_right(a, xtime_n(b, (k - 1) as nat));
    }
}

/// Multiplication is associative.
pub proof fn lemma_gf_mul_associative(a: u8, b: u8, c: u8)
    ensures
        gf_mul(gf_mul(a, b), c) == gf_mul(a, gf_mul(b, c)),
{
    let ab = gf_mul(a, b);
    // Both sides agree on the basis bytes 0, 1, 2, 4, ..., 128.
    assert forall|m: u8|
        m == 0 || m == 1 || m == 2 || m == 4 || m == 8 || m == 16 || m == 32 || m == 64 || m
            == 128 implies #[trigger] gf_mul(ab, m) == gf_mul(a, gf_mul(b, m)) by {
        lemma_gf_mul_basis(ab);
        lemma_gf_mul_basis(b);
        lemma_gf_mul_basis(a);
        if m == 2 {
            lemma_gf_mul_xtime_n_right(a, b, 1);
        } else if m == 4 {
            lemma_gf_mul_xtime_n_right(a, b, 2);
        } else if m == 8 {
            lemma_gf_mul_xtime_n_right(a, b, 3);
        } else if m == 16 {
            lemma_gf_mul_xtime_n_right(a, b, 4);
        } else if m == 32 {
            lemma_gf_mul_xtime_n_right(a, b, 5);
        } else if m == 64 {
            lemma_gf_mul_xtime_n_right(a, b, 6);
        } else if m == 128 {
            lemma_gf_mul_xtime_n_right(a, b, 7);
        } else if m == 1 {
            reveal_with_fuel(xtime_n, 1);
        }
    }
    // Both sides are additive in `c`.
    assert forall|x: u8, y: u8|
        gf_mul(ab, x) == gf_mul(a, gf_mul(b, x)) && gf_mul(ab, y) == gf_mul(a, gf_mul(b, y))
            implies #[trigger] gf_mul(ab, x ^ y) == gf_mul(a, gf_mul(b, x ^ y)) by {
        lemma_gf_mul_distributes(ab, x, y);
        lemma_gf_mul_distributes(b, x, y);
        lemma_gf_mul_distributes(a, gf_mul(b, x), gf_mul(b, y));
    }
    lemma_byte_bits(c);
    let t1 = (c & 1) ^ (c & 2);
    let t2 = t1 ^ (c & 4);
    let t3 = t2 ^ (c & 8);
    let t4 = t3 ^ (c & 16);
    let t5 = t4 ^ (c & 32);
    let t6 = t5 ^ (c & 64);
    assert(gf_mul(ab, c & 1) == gf_mul(a, gf_mul(b, c & 1)));
    assert(gf_mul(ab, c & 2) == gf_mul(a, gf_mul(b, c & 2)));
    assert(gf_mul(ab, t1) == gf_mul(a, gf_mul(b, t1)));
    assert(gf_mul(ab, c & 4) == gf_mul(a, gf_mul(b, c & 4)));
    assert(gf_mul(ab, t2) == gf_mul(a, gf_mul(b, t2)));
    assert(gf_mul(ab, c & 8) == gf_mul(a, gf_mul(b, c & 8)));
    assert(gf_mul(ab, t3) == gf_mul(a, gf_mul(b, t3)));
    assert(gf_mul(ab, c & 16) == gf_mul(a, gf_mul(b, c & 16)));
    assert(gf_mul(ab, t4) == gf_mul(a, gf_mul(b, t4)));
    assert(gf_mul(ab, c & 32) == gf_mul(a, gf_mul(b, c & 32)));
    assert(gf_mul(ab, t5) == gf_mul(a, gf_mul(b, t5)));
    assert(gf_mul(ab, c & 64) == gf_mul(a, gf_mul(b, c & 64)));
    assert(gf_mul(ab, t6) == gf_mul(a, gf_mul(b, t6)));
    assert(gf_mul(ab, c & 128) == gf_mul(a, gf_mul(b, c & 128)));
    assert(gf_mul(ab, t6 ^ (c & 128)) == gf_mul(a, gf_mul(b, t6 ^ (c & 128))));
}

/// One is a neutral element on both sides.
pub proof fn lemma_gf_mul_one(a: u8)
    ensures
        gf_mul(a, 1) == a,
        gf_mul(1, a) == a,
        gf_mul(a, 0) == 0,
        gf_mul(0, a) == 0,
{
    lemma_gf_mul_basis(a);
    lemma_gf_mul_commutative(a, 1);
    lemma_gf_mul_commutative(a, 0);
}

/// Exponents add: `a^(i+j) == a^i * a^j`.
pub proof fn lemma_gf_pow_add(a: u8, i: nat, j: nat)
    ensures
        gf_pow(a, i + j) == gf_mul(gf_pow(a, i), gf_pow(a, j)),
    decreases j,
{
    if j == 0 {
        lemma_gf_mul_one(gf_pow(a, i));
    } else {
        lemma_gf_pow_add(a, i, (j - 1) as nat);
        assert(gf_pow(a, i + j) == gf_mul(gf_pow(a, (i + j - 1) as nat), a));
        assert((i + (j - 1)) as nat == (i + j - 1) as nat);
        lemma_gf_mul_associative(gf_pow(a, i), gf_pow(a, (j - 1) as nat), a);
    }
}

/// Powers of zero vanish, except the zeroth.
pub proof fn lemma_gf_pow_zero_base(k: nat)
    ensures
        gf_pow(0, k) == (if k == 0 { 1u8 } else { 0u8 }),
    decreases k,
{
    if k > 0 {
        lemma_gf_pow_zero_base((k - 1) as nat);
        lemma_gf_mul_one(gf_pow(0, (k - 1) as nat));
    }
}

/// `a^254` is the product of the squares `a^2, a^4, ..., a^128`.
pub proof fn lemma_inv_chain_is_pow(a: u8)
    ensures
        inv_chain(a) == gf_pow(a, 254),
{
    reveal(inv_chain);
    reveal_with_fuel(gf_pow, 3);
    lemma_gf_mul_one(a);
    assert(gf_pow(a, 1) == a);
    assert(gf_pow(a, 2) == gf_square(a));
    lemma_gf_pow_add(a, 2, 2);
    lemma_gf_pow_add(a, 4, 4);
    lemma_gf_pow_add(a, 8, 8);
    lemma_gf_pow_add(a, 16, 16);
    lemma_gf_pow_add(a, 32, 32);
    lemma_gf_pow_add(a, 64, 64);
    lemma_gf_pow_add(a, 2, 4);
    lemma_gf_pow_add(a, 6, 8);
    lemma_gf_pow_add(a, 14, 16);
    lemma_gf_pow_add(a, 30, 32);
    lemma_gf_pow_add(a, 62, 64);
    lemma_gf_pow_add(a, 126, 128);
}

proof fn lemma_chain_inverts_table()
    ensures
        chain_inverts(0) &&
        chain_inverts(1) &&
        chain_inverts(2) &&
        chain_inverts(3) &&
        chain_inverts(4) &&
        chain_inverts(5) &&
        chain_inverts(6) &&
        chain_inverts(7) &&
        chain_inverts(8) &&
        chain_inverts(9) &&
        chain_inverts(10) &&
        chain_inverts(11) &&
        chain_inverts(12) &&
        chain_inverts(13) &&
        chain_inverts(14) &&
        chain_inverts(15) &&
        chain_inverts(16) &&
        chain_inverts(17) &&
        chain_inverts(18) &&
        chain_inverts(19) &&
        chain_inverts(20) &&
        chain_inverts(21) &&
        chain_inverts(22) &&
        chain_inverts(23) &&
        chain_inverts(24) &&
        chain_inverts(25) &&
        chain_inverts(26) &&
        chain_inverts(27) &&
        chain_inverts(28) &&
        chain_inverts(29) &&
        chain_inverts(30) &&
        chain_inverts(31) &&
        chain_inverts(32) &&
        chain_inverts(33) &&
        chain_inverts(34) &&
        chain_inverts(35) &&
        chain_inverts(36) &&
        chain_inverts(37) &&
        chain_inverts(38) &&
        chain_inverts(39) &&
        chain_inverts(40) &&
        chain_inverts(41) &&
        chain_inverts(42) &&
        chain_inverts(43) &&
        chain_inverts(44) &&
        chain_inverts(45) &&
        chain_inverts(46) &&
        chain_inverts(47) &&
        chain_inverts(48) &&
        chain_inverts(49) &&
        chain_inverts(50) &&
        chain_inverts(51) &&
        chain_inverts(52) &&
        chain_inverts(53) &&
        chain_inverts(54) &&
        chain_inverts(55) &&
        chain_inverts(56) &&
        chain_inverts(57) &&
        chain_inverts(58) &&
        chain_inverts(59) &&
        chain_inverts(60) &&
        chain_inverts(61) &&
        chain_inverts(62) &&
        chain_inverts(63) &&
        chain_inverts(64) &&
        chain_inverts(65) &&
        chain_inverts(66) &&
        chain_inverts(67) &&
        chain_inverts(68) &&
        chain_inverts(69) &&
        chain_inverts(70) &&
        chain_inverts(71) &&
        chain_inverts(72) &&
        chain_inverts(73) &&
        chain_inverts(74) &&
        chain_inverts(75) &&
        chain_inverts(76) &&
        chain_inverts(77) &&
        chain_inverts(78) &&
        chain_inverts(79) &&
        chain_inverts(80) &&
        chain_inverts(81) &&
        chain_inverts(82) &&
        chain_inverts(83) &&
        chain_inverts(84) &&
        chain_inverts(85) &&
        chain_inverts(86) &&
        chain_inverts(87) &&
        chain_inverts(88) &&
        chain_inverts(89) &&
        chain_inverts(90) &&
        chain_inverts(91) &&
        chain_inverts(92) &&
        chain_inverts(93) &&
        chain_inverts(94) &&
        chain_inverts(95) &&
        chain_inverts(96) &&
        chain_inverts(97) &&
        chain_inverts(98) &&
        chain_inverts(99) &&
        chain_inverts(100) &&
        chain_inverts(101) &&
        chain_inverts(102) &&
        chain_inverts(103) &&
        chain_inverts(104) &&
        chain_inverts(105) &&
        chain_inverts(106) &&
        chain_inverts(107) &&
        chain_inverts(108) &&
        chain_inverts(109) &&
        chain_inverts(110) &&
        chain_inverts(111) &&
        chain_inverts(112) &&
        chain_inverts(113) &&
        chain_inverts(114) &&
        chain_inverts(115) &&
        chain_inverts(116) &&
        chain_inverts(117) &&
        chain_inverts(118) &&
        chain_inverts(119) &&
        chain_inverts(120) &&
        chain_inverts(121) &&
        chain_inverts(122) &&
        chain_inverts(123) &&
        chain_inverts(124) &&
        chain_inverts(125) &&
        chain_inverts(126) &&
        chain_inverts(127) &&
        chain_inverts(128) &&
        chain_inverts(129) &&
        chain_inverts(130) &&
        chain_inverts(131) &&
        chain_inverts(132) &&
        chain_inverts(133) &&
        chain_inverts(134) &&
        chain_inverts(135) &&
        chain_inverts(136) &&
        chain_inverts(137) &&
        chain_inverts(138) &&
        chain_inverts(139) &&
        chain_inverts(140) &&
        chain_inverts(141) &&
        chain_inverts(142) &&
        chain_inverts(143) &&
        chain_inverts(144) &&
        chain_inverts(145) &&
        chain_inverts(146) &&
        chain_inverts(147) &&
        chain_inverts(148) &&
        chain_inverts(149) &&
        chain_inverts(150) &&
        chain_inverts(151) &&
        chain_inverts(152) &&
        chain_inverts(153) &&
        chain_inverts(154) &&
        chain_inverts(155) &&
        chain_inverts(156) &&
        chain_inverts(157) &&
        chain_inverts(158) &&
        chain_inverts(159) &&
        chain_inverts(160) &&
        chain_inverts(161) &&
        chain_inverts(162) &&
        chain_inverts(163) &&
        chain_inverts(164) &&
        chain_inverts(165) &&
        chain_inverts(166) &&
        chain_inverts(167) &&
        chain_inverts(168) &&
        chain_inverts(169) &&
        chain_inverts(170) &&
        chain_inverts(171) &&
        chain_inverts(172) &&
        chain_inverts(173) &&
        chain_inverts(174) &&
        chain_inverts(175) &&
        chain_inverts(176) &&
        chain_inverts(177) &&
        chain_inverts(178) &&
        chain_inverts(179) &&
        chain_inverts(180) &&
        chain_inverts(181) &&
        chain_inverts(182) &&
        chain_inverts(183) &&
        chain_inverts(184) &&
        chain_inverts(185) &&
        chain_inverts(186) &&
        chain_inverts(187) &&
        chain_inverts(188) &&
        chain_inverts(189) &&
        chain_inverts(190) &&
        chain_inverts(191) &&
        chain_inverts(192) &&
        chain_inverts(193) &&
        chain_inverts(194) &&
        chain_inverts(195) &&
        chain_inverts(196) &&
        chain_inverts(197) &&
        chain_inverts(198) &&
        chain_inverts(199) &&
        chain_inverts(200) &&
        chain_inverts(201) &&
        chain_inverts(202) &&
        chain_inverts(203) &&
        chain_inverts(204) &&
        chain_inverts(205) &&
        chain_inverts(206) &&
        chain_inverts(207) &&
        chain_inverts(208) &&
        chain_inverts(209) &&
        chain_inverts(210) &&
        chain_inverts(211) &&
        chain_inverts(212) &&
        chain_inverts(213) &&
        chain_inverts(214) &&
        chain_inverts(215) &&
        chain_inverts(216) &&
        chain_inverts(217) &&
        chain_inverts(218) &&
        chain_inverts(219) &&
        chain_inverts(220) &&
        chain_inverts(221) &&
        chain_inverts(222) &&
        chain_inverts(223) &&
        chain_inverts(224) &&
        chain_inverts(225) &&
        chain_inverts(226) &&
        chain_inverts(227) &&
        chain_inverts(228) &&
        chain_inverts(229) &&
        chain_inverts(230) &&
        chain_inverts(231) &&
        chain_inverts(232) &&
        chain_inverts(233) &&
        chain_inverts(234) &&
        chain_inverts(235) &&
        chain_inverts(236) &&
        chain_inverts(237) &&
        chain_inverts(238) &&
        chain_inverts(239) &&
        chain_inverts(240) &&
        chain_inverts(241) &&
        chain_inverts(242) &&
        chain_inverts(243) &&
        chain_inverts(244) &&
        chain_inverts(245) &&
        chain_inverts(246) &&
        chain_inverts(247) &&
        chain_inverts(248) &&
        chain_inverts(249) &&
        chain_inverts(250) &&
        chain_inverts(251) &&
        chain_inverts(252) &&
        chain_inverts(253) &&
        chain_inverts(254) &&
        chain_inverts(255),
{
    reveal(chain_inverts);
    reveal(inv_chain);
    assert(
        chain_inverts(0) &&
        chain_inverts(1) &&
        chain_inverts(2) &&
        chain_inverts(3) &&
        chain_inverts(4) &&
        chain_inverts(5) &&
        chain_inverts(6) &&
        chain_inverts(7) &&
        chain_inverts(8) &&
        chain_inverts(9) &&
        chain_inverts(10) &&
        chain_inverts(11) &&
        chain_inverts(12) &&
        chain_inverts(13) &&
        chain_inverts(14) &&
        chain_inverts(15) &&
        chain_inverts(16) &&
        chain_inverts(17) &&
        chain_inverts(18) &&
        chain_inverts(19) &&
        chain_inverts(20) &&
        chain_inverts(21) &&
        chain_inverts(22) &&
        chain_inverts(23) &&
        chain_inverts(24) &&
        chain_inverts(25) &&
        chain_inverts(26) &&
        chain_inverts(27) &&
        chain_inverts(28) &&
        chain_inverts(29) &&
        chain_inverts(30) &&
        chain_inverts(31) &&
        chain_inverts(32) &&
        chain_inverts(33) &&
        chain_inverts(34) &&
        chain_inverts(35) &&
        chain_inverts(36) &&
        chain_inverts(37) &&
        chain_inverts(38) &&
        chain_inverts(39) &&
        chain_inverts(40) &&
        chain_inverts(41) &&
        chain_inverts(42) &&
        chain_inverts(43) &&
        chain_inverts(44) &&
        chain_inverts(45) &&
        chain_inverts(46) &&
        chain_inverts(47) &&
        chain_inverts(48) &&
        chain_inverts(49) &&
        chain_inverts(50) &&
        chain_inverts(51) &&
        chain_inverts(52) &&
        chain_inverts(53) &&
        chain_inverts(54) &&
        chain_inverts(55) &&
        chain_inverts(56) &&
        chain_inverts(57) &&
        chain_inverts(58) &&
        chain_inverts(59) &&
        chain_inverts(60) &&
        chain_inverts(61) &&
        chain_inverts(62) &&
        chain_inverts(63) &&
        chain_inverts(64) &&
        chain_inverts(65) &&
        chain_inverts(66) &&
        chain_inverts(67) &&
        chain_inverts(68) &&
        chain_inverts(69) &&
        chain_inverts(70) &&
        chain_inverts(71) &&
        chain_inverts(72) &&
        chain_inverts(73) &&
        chain_inverts(74) &&
        chain_inverts(75) &&
        chain_inverts(76) &&
        chain_inverts(77) &&
        chain_inverts(78) &&
        chain_inverts(79) &&
        chain_inverts(80) &&
        chain_inverts(81) &&
        chain_inverts(82) &&
        chain_inverts(83) &&
        chain_inverts(84) &&
        chain_inverts(85) &&
        chain_inverts(86) &&
        chain_inverts(87) &&
        chain_inverts(88) &&
        chain_inverts(89) &&
        chain_inverts(90) &&
        chain_inverts(91) &&
        chain_inverts(92) &&
        chain_inverts(93) &&
        chain_inverts(94) &&
        chain_inverts(95) &&
        chain_inverts(96) &&
        chain_inverts(97) &&
        chain_inverts(98) &&
        chain_inverts(99) &&
        chain_inverts(100) &&
        chain_inverts(101) &&
        chain_inverts(102) &&
        chain_inverts(103) &&
        chain_inverts(104) &&
        chain_inverts(105) &&
        chain_inverts(106) &&
        chain_inverts(107) &&
        chain_inverts(108) &&
        chain_inverts(109) &&
        chain_inverts(110) &&
        chain_inverts(111) &&
        chain_inverts(112) &&
        chain_inverts(113) &&
        chain_inverts(114) &&
        chain_inverts(115) &&
        chain_inverts(116) &&
        chain_inverts(117) &&
        chain_inverts(118) &&
        chain_inverts(119) &&
        chain_inverts(120) &&
        chain_inverts(121) &&
        chain_inverts(122) &&
        chain_inverts(123) &&
        chain_inverts(124) &&
        chain_inverts(125) &&
        chain_inverts(126) &&
        chain_inverts(127) &&
        chain_inverts(128) &&
        chain_inverts(129) &&
        chain_inverts(130) &&
        chain_inverts(131) &&
        chain_inverts(132) &&
        chain_inverts(133) &&
        chain_inverts(134) &&
        chain_inverts(135) &&
        chain_inverts(136) &&
        chain_inverts(137) &&
        chain_inverts(138) &&
        chain_inverts(139) &&
        chain_inverts(140) &&
        chain_inverts(141) &&
        chain_inverts(142) &&
        chain_inverts(143) &&
        chain_inverts(144) &&
        chain_inverts(145) &&
        chain_inverts(146) &&
        chain_inverts(147) &&
        chain_inverts(148) &&
        chain_inverts(149) &&
        chain_inverts(150) &&
        chain_inverts(151) &&
        chain_inverts(152) &&
        chain_inverts(153) &&
        chain_inverts(154) &&
        chain_inverts(155) &&
        chain_inverts(156) &&
        chain_inverts(157) &&
        chain_inverts(158) &&
        chain_inverts(159) &&
        chain_inverts(160) &&
        chain_inverts(161) &&
        chain_inverts(162) &&
        chain_inverts(163) &&
        chain_inverts(164) &&
        chain_inverts(165) &&
        chain_inverts(166) &&
        chain_inverts(167) &&
        chain_inverts(168) &&
        chain_inverts(169) &&
        chain_inverts(170) &&
        chain_inverts(171) &&
        chain_inverts(172) &&
        chain_inverts(173) &&
        chain_inverts(174) &&
        chain_inverts(175) &&
        chain_inverts(176) &&
        chain_inverts(177) &&
        chain_inverts(178) &&
        chain_inverts(179) &&
        chain_inverts(180) &&
        chain_inverts(181) &&
        chain_inverts(182) &&
        chain_inverts(183) &&
        chain_inverts(184) &&
        chain_inverts(185) &&
        chain_inverts(186) &&
        chain_inverts(187) &&
        chain_inverts(188) &&
        chain_inverts(189) &&
        chain_inverts(190) &&
        chain_inverts(191) &&
        chain_inverts(192) &&
        chain_inverts(193) &&
        chain_inverts(194) &&
        chain_inverts(195) &&
        chain_inverts(196) &&
        chain_inverts(197) &&
        chain_inverts(198) &&
        chain_inverts(199) &&
        chain_inverts(200) &&
        chain_inverts(201) &&
        chain_inverts(202) &&
        chain_inverts(203) &&
        chain_inverts(204) &&
        chain_inverts(205) &&
        chain_inverts(206) &&
        chain_inverts(207) &&
        chain_inverts(208) &&
        chain_inverts(209) &&
        chain_inverts(210) &&
        chain_inverts(211) &&
        chain_inverts(212) &&
        chain_inverts(213) &&
        chain_inverts(214) &&
        chain_inverts(215) &&
        chain_inverts(216) &&
        chain_inverts(217) &&
        chain_inverts(218) &&
        chain_inverts(219) &&
        chain_inverts(220) &&
        chain_inverts(221) &&
        chain_inverts(222) &&
        chain_inverts(223) &&
        chain_inverts(224) &&
        chain_inverts(225) &&
        chain_inverts(226) &&
        chain_inverts(227) &&
        chain_inverts(228) &&
        chain_inverts(229) &&
        chain_inverts(230) &&
        chain_inverts(231) &&
        chain_inverts(232) &&
        chain_inverts(233) &&
        chain_inverts(234) &&
        chain_inverts(235) &&
        chain_inverts(236) &&
        chain_inverts(237) &&
        chain_inverts(238) &&
        chain_inverts(239) &&
        chain_inverts(240) &&
        chain_inverts(241) &&
        chain_inverts(242) &&
        chain_inverts(243) &&
        chain_inverts(244) &&
        chain_inverts(245) &&
        chain_inverts(246) &&
        chain_inverts(247) &&
        chain_inverts(248) &&
        chain_inverts(249) &&
        chain_inverts(250) &&
        chain_inverts(251) &&
        chain_inverts(252) &&
        chain_inverts(253) &&
        chain_inverts(254) &&
        chain_inverts(255)
    ) by (bit_vector);
}

proof fn lemma_chain_inverts(a: u8)
    ensures
        chain_inverts(a),
{
    lemma_chain_inverts_table();
    match a {
        0u8 => {},
        1u8 => {},
        2u8 => {},
        3u8 => {},
        4u8 => {},
        5u8 => {},
        6u8 => {},
        7u8 => {},
        8u8 => {},
        9u8 => {},
        10u8 => {},
        11u8 => {},
        12u8 => {},
        13u8 => {},
        14u8 => {},
        15u8 => {},
        16u8 => {},
        17u8 => {},
        18u8 => {},
        19u8 => {},
        20u8 => {},
        21u8 => {},
        22u8 => {},
        23u8 => {},
        24u8 => {},
        25u8 => {},
        26u8 => {},
        27u8 => {},
        28u8 => {},
        29u8 => {},
        30u8 => {},
        31u8 => {},
        32u8 => {},
        33u8 => {},
        34u8 => {},
        35u8 => {},
        36u8 => {},
        37u8 => {},
        38u8 => {},
        39u8 => {},
        40u8 => {},
        41u8 => {},
        42u8 => {},
        43u8 => {},
        44u8 => {},
        45u8 => {},
        46u8 => {},
        47u8 => {},
        48u8 => {},
        49u8 => {},
        50u8 => {},
        51u8 => {},
        52u8 => {},
        53u8 => {},
        54u8 => {},
        55u8 => {},
        56u8 => {},
        57u8 => {},
        58u8 => {},
        59u8 => {},
        60u8 => {},
        61u8 => {},
        62u8 => {},
        63u8 => {},
        64u8 => {},
        65u8 => {},
        66u8 => {},
        67u8 => {},
        68u8 => {},
        69u8 => {},
        70u8 => {},
        71u8 => {},
        72u8 => {},
        73u8 => {},
        74u8 => {},
        75u8 => {},
        76u8 => {},
        77u8 => {},
        78u8 => {},
        79u8 => {},
        80u8 => {},
        81u8 => {},
        82u8 => {},
        83u8 => {},
        84u8 => {},
        85u8 => {},
        86u8 => {},
        87u8 => {},
        88u8 => {},
        89u8 => {},
        90u8 => {},
        91u8 => {},
        92u8 => {},
        93u8 => {},
        94u8 => {},
        95u8 => {},
        96u8 => {},
        97u8 => {},
        98u8 => {},
        99u8 => {},
        100u8 => {},
        101u8 => {},
        102u8 => {},
        103u8 => {},
        104u8 => {},
        105u8 => {},
        106u8 => {},
        107u8 => {},
        108u8 => {},
        109u8 => {},
        110u8 => {},
        111u8 => {},
        112u8 => {},
        113u8 => {},
        114u8 => {},
        115u8 => {},
        116u8 => {},
        117u8 => {},
        118u8 => {},
        119u8 => {},
        120u8 => {},
        121u8 => {},
        122u8 => {},
        123u8 => {},
        124u8 => {},
        125u8 => {},
        126u8 => {},
        127u8 => {},
        128u8 => {},
        129u8 => {},
        130u8 => {},
        131u8 => {},
        132u8 => {},
        133u8 => {},
        134u8 => {},
        135u8 => {},
        136u8 => {},
        137u8 => {},
        138u8 => {},
        139u8 => {},
        140u8 => {},
        141u8 => {},
        142u8 => {},
        143u8 => {},
        144u8 => {},
        145u8 => {},
        146u8 => {},
        147u8 => {},
        148u8 => {},
        149u8 => {},
        150u8 => {},
        151u8 => {},
        152u8 => {},
        153u8 => {},
        154u8 => {},
        155u8 => {},
        156u8 => {},
        157u8 => {},
        158u8 => {},
        159u8 => {},
        160u8 => {},
        161u8 => {},
        162u8 => {},
        163u8 => {},
        164u8 => {},
        165u8 => {},
        166u8 => {},
        167u8 => {},
        168u8 => {},
        169u8 => {},
        170u8 => {},
        171u8 => {},
        172u8 => {},
        173u8 => {},
        174u8 => {},
        175u8 => {},
        176u8 => {},
        177u8 => {},
        178u8 => {},
        179u8 => {},
        180u8 => {},
        181u8 => {},
        182u8 => {},
        183u8 => {},
        184u8 => {},
        185u8 => {},
        186u8 => {},
        187u8 => {},
        188u8 => {},
        189u8 => {},
        190u8 => {},
        191u8 => {},
        192u8 => {},
        193u8 => {},
        194u8 => {},
        195u8 => {},
        196u8 => {},
        197u8 => {},
        198u8 => {},
        199u8 => {},
        200u8 => {},
        201u8 => {},
        202u8 => {},
        203u8 => {},
        204u8 => {},
        205u8 => {},
        206u8 => {},
        207u8 => {},
        208u8 => {},
        209u8 => {},
        210u8 => {},
        211u8 => {},
        212u8 => {},
        213u8 => {},
        214u8 => {},
        215u8 => {},
        216u8 => {},
        217u8 => {},
        218u8 => {},
        219u8 => {},
        220u8 => {},
        221u8 => {},
        222u8 => {},
        223u8 => {},
        224u8 => {},
        225u8 => {},
        226u8 => {},
        227u8 => {},
        228u8 => {},
        229u8 => {},
        230u8 => {},
        231u8 => {},
        232u8 => {},
        233u8 => {},
        234u8 => {},
        235u8 => {},
        236u8 => {},
        237u8 => {},
        238u8 => {},
        239u8 => {},
        240u8 => {},
        241u8 => {},
        242u8 => {},
        243u8 => {},
        244u8 => {},
        245u8 => {},
        246u8 => {},
        247u8 => {},
        248u8 => {},
        249u8 => {},
        250u8 => {},
        251u8 => {},
        252u8 => {},
        253u8 => {},
        254u8 => {},
        255u8 => {},
    }
}

/// Every nonzero byte times its inverse is one.
pub proof fn lemma_gf_inv_is_inverse(a: u8)
    requires
        a != 0,
    ensures
        gf_mul(a, gf_inv(a)) == 1,
        gf_mul(gf_inv(a), a) == 1,
{
    lemma_chain_inverts(a);
    reveal(chain_inverts);
    lemma_inv_chain_is_pow(a);
    lemma_gf_mul_commutative(a, gf_inv(a));
}

/// The multiplicative group has order 255: `a^255 == 1` for every nonzero `a`.
pub proof fn lemma_gf_pow_order(a: u8)
    requires
        a != 0,
    ensures
        gf_pow(a, 255) == 1,
{
    lemma_gf_inv_is_inverse(a);
}

/// For nonzero `a`, exponents may be reduced modulo 255.
pub proof fn lemma_gf_pow_periodic(a: u8, n: nat)
    requires
        a != 0,
    ensures
        gf_pow(a, n) == gf_pow(a, n % 255),
    decreases n,
{
    if n >= 255 {
        lemma_gf_pow_periodic(a, (n - 255) as nat);
        lemma_gf_pow_add(a, 255, (n - 255) as nat);
        lemma_gf_pow_order(a);
        lemma_gf_mul_one(gf_pow(a, (n - 255) as nat));
        assert((n - 255) as nat % 255 == n % 255) by {
            vstd::arithmetic::div_mod::lemma_mod_sub_multiples_vanish(n as int, 255);
        }
    } else {
        vstd::arithmetic::div_mod::lemma_small_mod(n, 255);
    }
}

/// A nonzero byte has exactly one inverse.
pub proof fn lemma_gf_inv_unique(a: u8, b: u8)
    requires
        gf_mul(a, b) == 1,
    ensures
        a != 0,
        b == gf_inv(a),
{
    lemma_gf_mul_one(b);
    if a == 0 {
        assert(gf_mul(0, b) == 0);
    } else {
        lemma_gf_inv_is_inverse(a);
        // b = (inv(a) * a) * b = inv(a) * (a * b) = inv(a)
        lemma_gf_mul_associative(gf_inv(a), a, b);
        lemma_gf_mul_one(gf_inv(a));
    }
}

/// Inversion is an involution.
pub proof fn lemma_gf_inv_involution(a: u8)
    ensures
        gf_inv(gf_inv(a)) == a,
{
    if a != 0 {
        lemma_gf_inv_is_inverse(a);
        lemma_gf_inv_unique(gf_inv(a), a);
    }
}

/// `xtime` is multiplication by the byte 0x02.
pub proof fn lemma_xtime_is_mul_by_two(a: u8)
    ensures
        xtime_spec(a) == gf_mul(a, 2),
        xtime_spec(a) == gf_mul(2, a),
{
    lemma_gf_mul_basis(a);
    reveal_with_fuel(xtime_n, 2);
    lemma_gf_mul_commutative(a, 2);
}

// ---------------------------------------------------------------------------
// Executable arithmetic
// ---------------------------------------------------------------------------

proof fn lemma_shift_right_step(b: u8, i: u8)
    by (bit_vector)
    requires
        i < 8,
    ensures
        (b >> i) >> 1u8 == b >> ((i + 1) as u8),
        b >> 0u8 == b,
{
}

proof fn lemma_mul_partial_complete(a: u8, b: u8)
    ensures
        mul_partial(a, b, 8) == gf_mul(a, b),
{
    reveal_with_fuel(mul_partial, 9);
    reveal_with_fuel(xtime_n, 8);
    lemma_mul_partial_bits(
        a,
        xtime_n(a, 1),
        xtime_n(a, 2),
        xtime_n(a, 3),
        xtime_n(a, 4),
        xtime_n(a, 5),
        xtime_n(a, 6),
        xtime_n(a, 7),
        b,
        mul_partial(a, b, 1),
        mul_partial(a, b, 2),
        mul_partial(a, b, 3),
        mul_partial(a, b, 4),
        mul_partial(a, b, 5),
        mul_partial(a, b, 6),
        mul_partial(a, b, 7),
        mul_partial(a, b, 8),
    );
}

/// Adds two elements of GF(2^8); in characteristic 2 this is XOR.
pub fn add(left: u8, right: u8) -> (r: u8)
    ensures
        r == left ^ right,
{
    left ^ right
}

/// Multiplies a byte by `x` (that is, by 0x02), reducing modulo the AES
/// polynomial x^8 + x^4 + x^3 + x + 1.
pub fn xtime(value: u8) -> (r: u8)
    ensures
        r == xtime_spec(value),
        r == gf_mul(value, 2),
{
    proof {
        lemma_xtime_is_mul_by_two(value);
    }
    if value & 0x80 != 0 {
        self::add(value << 1, 0x1b)
    } else {
        value << 1
    }
}

/// Multiplies two elements of GF(2^8) by shift-and-add over the bits of the
/// second operand.
pub fn mul(left: u8, right: u8) -> (r: u8)
    ensures
        r == gf_mul(left, right),
{
    let mut multiplicand = left;
    let mut multiplier = right;
    let mut result = 0u8;
    proof {
        lemma_shift_right_step(right, 0);
    }
    for i in 0..8u8
        invariant
            multiplicand == xtime_n(left, i as nat),
            multiplier == right >> i,
            result == mul_partial(left, right, i as nat),
    {
        proof {
            lemma_shift_right_step(right, i);
            assert((((i + 1) as nat) - 1) as u8 == i);
        }
        if multiplier & 1 != 0 {
            result = self::add(result, multiplicand);
        }
        multiplicand = xtime(multiplicand);
        multiplier >>= 1;
    }
    proof {
        lemma_mul_partial_complete(left, right);
    }
    result
}

proof fn lemma_exponent_bits(e: u8, i: u8)
    by (bit_vector)
    requires
        i < 8,
    ensures
        (e >> ((7 - i) as u8)) as int == 2 * ((e >> ((8 - i) as u8)) as int) + (if (e << i) & 0x80
            != 0 { 1int } else { 0int }),
        (e << i) << 1u8 == e << ((i + 1) as u8),
        e >> 8u8 == 0,
        e << 0u8 == e,
        e >> 0u8 == e,
{
}

/// Computes `a^n` in GF(2^8) by left-to-right square-and-multiply on the
/// exponent reduced modulo 255 (the order of the multiplicative group).
pub fn pow(a: u8, n: u32) -> (r: u8)
    ensures
        r == gf_pow(a, n as nat),
{
    if n == 0 {
        return 1;
    }
    if a == 0 {
        proof {
            lemma_gf_pow_zero_base(n as nat);
        }
        return 0;
    }
    proof {
        lemma_gf_pow_periodic(a, n as nat);
    }
    let ghost full = n;
    let mut result: u8 = 1;
    let mut n = (n % 255) as u8;
    let ghost e = n;
    proof {
        lemma_exponent_bits(e, 0);
    }
    for i in 0..8u8
        invariant
            result == gf_pow(a, (e >> ((8 - i) as u8)) as nat),
            n == e << i,
    {
        let ghost p = (e >> ((8 - i) as u8)) as nat;
        proof {
            lemma_exponent_bits(e, i);
            lemma_gf_pow_add(a, p, p);
            assert(((8 - (i + 1)) as u8) == ((7 - i) as u8));
        }
        if n & 0x80 != 0 {
            result = self::mul(self::mul(result, result), a)
        } else {
            result = self::mul(result, result)
        }
        n = n << 1;
    }
    proof {
        lemma_exponent_bits(e, 0);
        assert(e as nat == full as nat % 255);
    }
    result
}

/// Computes the multiplicative inverse as `value^254`; by convention the
/// result for 0 is 0 (as the S-box construction needs).
pub fn inv(value: u8) -> (r: u8)
    ensures
        r == gf_inv(value),
        value != 0 ==> gf_mul(value, r) == 1,
{
    if value == 0 {
        0
    } else {
        proof {
            lemma_gf_inv_is_inverse(value);
        }
        pow(value, 254)
    }
}

} // verus!
