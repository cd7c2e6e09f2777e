use sqisign_gf::{
    fp_add, fp_copy, fp_cswap, fp_div3, fp_encode, fp_half, fp_is_equal, fp_is_zero, fp_mul, fp_mul_small,
    fp_neg, fp_select, fp_set_one, fp_set_small, fp_set_zero, fp_sqr, fp_sub, Fp, MONTGOMERY_ONE, NWORDS_FIELD,
};

const MASK51: u64 = (1u64 << 51) - 1;

/// The prime itself in radix-2^51 limbs: a non-canonical encoding of zero.
const P_LIMBS: Fp = [MASK51, MASK51, MASK51, MASK51, 0x500000000000 - 1];

fn small(v: u64) -> Fp {
    let mut out = [0u64; NWORDS_FIELD];
    fp_set_small(&mut out, v);
    out
}

fn enc(a: &Fp) -> [u8; 32] {
    let mut out = [0u8; 32];
    fp_encode(&mut out, a);
    out
}

fn enc_u64(v: u64) -> [u8; 32] {
    let mut out = [0u8; 32];
    out[..8].copy_from_slice(&v.to_le_bytes());
    out
}

fn wide_inputs() -> Vec<Fp> {
    vec![
        [0, 0, 0, 0, 0],
        [1, 2, 3, 4, 5],
        [MASK51, MASK51, MASK51, MASK51, 0x4fffffffffff],
        P_LIMBS,
        [u64::MAX, u64::MAX, u64::MAX, u64::MAX, u64::MAX],
        [0x0123456789abcdef, 0xfedcba9876543210, 0x0f0f0f0f0f0f0f0f, 0xf0f0f0f0f0f0f0f0, 0x5555555555555555],
        small(7),
        small(123456789),
        MONTGOMERY_ONE,
    ]
}

const P_MINUS_1: [u8; 32] = [
    0xfe, 0xff, 0xff, 0xff, 0xff, 0xff, 0xff, 0xff, 0xff, 0xff, 0xff, 0xff, 0xff, 0xff, 0xff, 0xff, 0xff, 0xff,
    0xff, 0xff, 0xff, 0xff, 0xff, 0xff, 0xff, 0xff, 0xff, 0xff, 0xff, 0xff, 0xff, 0x04,
];

#[test]
fn add_small_values() {
    let mut out = [0u64; NWORDS_FIELD];
    fp_add(&mut out, &small(2), &small(3));
    assert_eq!(enc(&out), enc_u64(5));
}

#[test]
fn add_is_commutative_bit_for_bit_and_masks_low_limbs() {
    for a in wide_inputs() {
        for b in wide_inputs() {
            let mut c1 = [0u64; NWORDS_FIELD];
            let mut c2 = [0u64; NWORDS_FIELD];
            fp_add(&mut c1, &a, &b);
            fp_add(&mut c2, &b, &a);
            assert_eq!(c1, c2);
            for limb in c1.iter().take(4) {
                assert!(*limb < (1u64 << 51));
            }
        }
    }
}

#[test]
fn sub_wraps_below_zero() {
    let mut out = [0u64; NWORDS_FIELD];
    fp_sub(&mut out, &small(2), &small(3));
    assert_eq!(enc(&out), P_MINUS_1);
}

#[test]
fn sub_self_is_all_zero_limbs() {
    for a in wide_inputs() {
        let mut out = [1u64; NWORDS_FIELD];
        fp_sub(&mut out, &a, &a);
        assert_eq!(out, [0u64; NWORDS_FIELD]);
    }
}

#[test]
fn neg_of_zero_and_of_one() {
    let mut out = [7u64; NWORDS_FIELD];
    fp_neg(&mut out, &[0u64; NWORDS_FIELD]);
    assert_eq!(out, [0u64; NWORDS_FIELD]);
    fp_neg(&mut out, &MONTGOMERY_ONE);
    assert_eq!(enc(&out), P_MINUS_1);
    let mut back = [0u64; NWORDS_FIELD];
    fp_neg(&mut back, &out);
    assert_eq!(fp_is_equal(&back, &MONTGOMERY_ONE), 0xFFFF_FFFF);
}

#[test]
fn sub_then_add_gives_back() {
    let a = small(1000);
    let b = small(123456);
    let mut d = [0u64; NWORDS_FIELD];
    let mut s = [0u64; NWORDS_FIELD];
    fp_sub(&mut d, &a, &b);
    fp_add(&mut s, &d, &b);
    assert_eq!(fp_is_equal(&s, &a), 0xFFFF_FFFF);
}

#[test]
fn copy_zero_one() {
    for a in wide_inputs() {
        let mut out = [9u64; NWORDS_FIELD];
        fp_copy(&mut out, &a);
        assert_eq!(out, a);
    }
    let mut z = [3u64; NWORDS_FIELD];
    fp_set_zero(&mut z);
    assert_eq!(z, [0u64; NWORDS_FIELD]);
    let mut one = [3u64; NWORDS_FIELD];
    fp_set_one(&mut one);
    assert_eq!(one, [0x19, 0, 0, 0, 0x300000000000]);
    assert_eq!(enc(&one), enc_u64(1));
}

#[test]
fn mul_small_values_and_commutativity() {
    let mut out = [0u64; NWORDS_FIELD];
    fp_mul(&mut out, &small(3), &small(5));
    assert_eq!(enc(&out), enc_u64(15));
    for a in wide_inputs() {
        for b in wide_inputs() {
            let mut c1 = [0u64; NWORDS_FIELD];
            let mut c2 = [0u64; NWORDS_FIELD];
            fp_mul(&mut c1, &a, &b);
            fp_mul(&mut c2, &b, &a);
            assert_eq!(c1, c2);
        }
    }
}

#[test]
fn sqr_is_mul_by_itself() {
    for a in wide_inputs() {
        let mut s = [0u64; NWORDS_FIELD];
        let mut m = [0u64; NWORDS_FIELD];
        fp_sqr(&mut s, &a);
        fp_mul(&mut m, &a, &a);
        assert_eq!(s, m);
    }
    let mut s = [0u64; NWORDS_FIELD];
    fp_sqr(&mut s, &small(12));
    assert_eq!(enc(&s), enc_u64(144));
}

#[test]
fn half_of_one_and_doubling_back() {
    let mut h = [0u64; NWORDS_FIELD];
    fp_half(&mut h, &MONTGOMERY_ONE);
    let mut expected = [0u8; 32];
    expected[30] = 0x80;
    expected[31] = 0x02;
    assert_eq!(enc(&h), expected);
    let a = small(987654321);
    fp_half(&mut h, &a);
    let mut d = [0u64; NWORDS_FIELD];
    fp_add(&mut d, &h, &h);
    assert_eq!(fp_is_equal(&d, &a), 0xFFFF_FFFF);
}

#[test]
fn div3_of_three_and_tripling_back() {
    let mut t = [0u64; NWORDS_FIELD];
    fp_div3(&mut t, &small(3));
    assert_eq!(enc(&t), enc_u64(1));
    let a = small(55555);
    fp_div3(&mut t, &a);
    let mut d = [0u64; NWORDS_FIELD];
    let mut tr = [0u64; NWORDS_FIELD];
    fp_add(&mut d, &t, &t);
    fp_add(&mut tr, &d, &t);
    assert_eq!(fp_is_equal(&tr, &a), 0xFFFF_FFFF);
}

#[test]
fn is_zero_on_encodings_of_zero() {
    assert_eq!(fp_is_zero(&[0u64; NWORDS_FIELD]), 0xFFFF_FFFF);
    assert_eq!(fp_is_zero(&P_LIMBS), 0xFFFF_FFFF);
    assert_eq!(fp_is_zero(&MONTGOMERY_ONE), 0);
    for a in wide_inputs() {
        let m = fp_is_zero(&a);
        assert!(m == 0 || m == 0xFFFF_FFFF);
    }
}

#[test]
fn is_equal_reflexive_symmetric_and_on_zero_encodings() {
    assert_eq!(fp_is_equal(&[0u64; NWORDS_FIELD], &P_LIMBS), 0xFFFF_FFFF);
    assert_eq!(fp_is_equal(&small(1), &small(2)), 0);
    for a in wide_inputs() {
        assert_eq!(fp_is_equal(&a, &a), 0xFFFF_FFFF);
        for b in wide_inputs() {
            assert_eq!(fp_is_equal(&a, &b), fp_is_equal(&b, &a));
        }
    }
}

#[test]
fn set_small_zero_one_and_narrowing() {
    assert_eq!(small(0), [0u64; NWORDS_FIELD]);
    assert_eq!(small(1), MONTGOMERY_ONE);
    for v in [0u64, 1, 2, 0x7fff_ffff, 0x8000_0000, 0xffff_ffff, 0x1_0000_0001, u64::MAX] {
        assert_eq!(small(v), small(v as i32 as u64));
    }
    // A negative 32-bit value is sign-extended to 64 bits before it is
    // taken modulo p: -1 stands for 2^64 - 1.
    assert_eq!(enc(&small(0xffff_ffff)), enc_u64(u64::MAX));
}

#[test]
fn mul_small_zero_one_and_cross_check() {
    for a in wide_inputs() {
        let mut out = [5u64; NWORDS_FIELD];
        fp_mul_small(&mut out, &a, 0);
        assert_eq!(out, [0u64; NWORDS_FIELD]);
        let mut one = [0u64; NWORDS_FIELD];
        let mut expect = [0u64; NWORDS_FIELD];
        fp_mul_small(&mut one, &a, 1);
        fp_mul(&mut expect, &a, &MONTGOMERY_ONE);
        assert_eq!(one, expect);
        for v in [2u32, 77, 0x7fff_ffff, 0x8000_0000, 0xffff_ffff] {
            let mut x = [0u64; NWORDS_FIELD];
            let mut y = [0u64; NWORDS_FIELD];
            fp_mul_small(&mut x, &a, v);
            fp_mul(&mut y, &a, &small(v as i32 as u64));
            assert_eq!(x, y);
        }
    }
    let mut out = [0u64; NWORDS_FIELD];
    fp_mul_small(&mut out, &small(6), 7);
    assert_eq!(enc(&out), enc_u64(42));
}

#[test]
fn cswap_reads_only_the_low_bit() {
    let a0 = small(11);
    let b0 = small(22);
    for ctl in [0u32, 2, 0xffff_fffe] {
        let (mut a, mut b) = (a0, b0);
        fp_cswap(&mut a, &mut b, ctl);
        assert_eq!((a, b), (a0, b0));
    }
    for ctl in [1u32, 3, 0xffff_ffff] {
        let (mut a, mut b) = (a0, b0);
        fp_cswap(&mut a, &mut b, ctl);
        assert_eq!((a, b), (b0, a0));
        fp_cswap(&mut a, &mut b, ctl);
        assert_eq!((a, b), (a0, b0));
    }
}

#[test]
fn select_endpoints() {
    let a0 = [1u64, 2, 3, 4, 5];
    let a1 = [u64::MAX, 0, u64::MAX, 0, 7];
    let mut d = [0u64; NWORDS_FIELD];
    fp_select(&mut d, &a0, &a1, 0);
    assert_eq!(d, a0);
    fp_select(&mut d, &a0, &a1, 0xFFFF_FFFF);
    assert_eq!(d, a1);
}
