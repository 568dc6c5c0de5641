use aes_rust_lab::aes_core::gf256::{add, inv, mul, pow, xtime};

/// xtime on a case without overflow and a case with reduction.
#[test]
fn test_xtime() {
    assert_eq!(xtime(0x57), 0xae);
    assert_eq!(xtime(0xae), 0x47);
}

/// Addition in GF(2^8) is XOR.
#[test]
fn test_xor() {
    assert_eq!(add(0x53, 0xca), 0x99);
}

/// mul on a small example by hand and on the pair (0x57, 0x83).
#[test]
fn test_mul() {
    assert_eq!(mul(3, 5), 15);
    assert_eq!(mul(0x57, 0x83), 0xc1);
}

/// pow: base cases, a = 0, agreement with mul, exact values, periodicity.
#[test]
fn test_pow() {
    assert_eq!(pow(2, 0), 1);
    assert_eq!(pow(0x53, 0), 1);
    assert_eq!(pow(0xff, 0), 1);
    assert_eq!(pow(0, 0), 1);

    assert_eq!(pow(0, 1), 0);
    assert_eq!(pow(0, 254), 0);
    assert_eq!(pow(0, 255), 0);
    assert_eq!(pow(0, 510), 0);

    assert_eq!(pow(2, 1), 2);
    assert_eq!(pow(0x53, 1), 0x53);

    assert_eq!(pow(3, 2), mul(3, 3));
    assert_eq!(pow(0x53, 2), mul(0x53, 0x53));

    assert_eq!(pow(3, 3), mul(mul(3, 3), 3));

    assert_eq!(pow(0x53, 13), 43);
    assert_eq!(pow(0xca, 100), 0xab);

    assert_eq!(pow(0x53, 255), 1);
    assert_eq!(pow(0x53, 256), 0x53);
    assert_eq!(pow(0x53, 257), mul(0x53, 0x53));
    assert_eq!(pow(0x53, 510), 1);
}

/// inv on the classic pair 0x53 / 0xca, and a * inv(a) = 1.
#[test]
fn test_inv() {
    assert_eq!(inv(0x53), 0xca);
    assert_eq!(mul(0x53, inv(0x53)), 1);
}

#[test]
fn test_inv_of_zero_is_zero() {
    assert_eq!(inv(0), 0);
}

#[test]
fn test_every_nonzero_byte_has_an_inverse() {
    for a in 1..=255u8 {
        assert_eq!(mul(a, inv(a)), 1);
        assert_eq!(mul(inv(a), a), 1);
        assert_eq!(inv(inv(a)), a);
    }
}

#[test]
fn test_multiplicative_order_divides_255() {
    for a in 1..=255u8 {
        assert_eq!(pow(a, 255), 1);
    }
}

#[test]
fn test_pow_exponent_reduced_modulo_255() {
    for &a in &[1u8, 2, 3, 0x53, 0xca, 0xff] {
        for n in [0u32, 1, 7, 100, 254] {
            assert_eq!(pow(a, n + 255), pow(a, n));
            assert_eq!(pow(a, n + 510), pow(a, n));
        }
    }
    assert_eq!(pow(2, u32::MAX), pow(2, u32::MAX % 255));
}

#[test]
fn test_mul_commutative_and_associative() {
    let samples = [0u8, 1, 2, 3, 0x53, 0x57, 0x83, 0xca, 0xff];
    for &a in &samples {
        for &b in &samples {
            assert_eq!(mul(a, b), mul(b, a));
            for &c in &samples {
                assert_eq!(mul(mul(a, b), c), mul(a, mul(b, c)));
                assert_eq!(mul(a, b ^ c), mul(a, b) ^ mul(a, c));
            }
        }
    }
}

#[test]
fn test_mul_identities() {
    for a in 0..=255u8 {
        assert_eq!(mul(a, 1), a);
        assert_eq!(mul(1, a), a);
        assert_eq!(mul(a, 0), 0);
        assert_eq!(mul(a, 2), xtime(a));
    }
}

#[test]
fn test_xtime_high_bit_cases() {
    assert_eq!(xtime(0x80), 0x1b);
    assert_eq!(xtime(0x00), 0x00);
    assert_eq!(xtime(0x01), 0x02);
    assert_eq!(xtime(0xff), 0xe5);
}
