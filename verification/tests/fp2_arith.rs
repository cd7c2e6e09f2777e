use sqisign_gf::{
    fp2_add, fp2_add_one, fp2_batched_inv, fp2_copy, fp2_cswap, fp2_decode, fp2_encode, fp2_half, fp2_inv,
    fp2_is_equal, fp2_is_one, fp2_is_square, fp2_is_zero, fp2_mul, fp2_mul_small, fp2_neg, fp2_pow_vartime,
    fp2_select, fp2_set_one, fp2_set_small, fp2_set_zero, fp2_sqr, fp2_sqrt, fp2_sqrt_verify, fp2_sub,
    fp_encode, fp_set_small, Fp, Fp2, Fp2t, FP2_ENCODED_BYTES, MONTGOMERY_ONE, NWORDS_FIELD,
};

const ZERO: Fp = [0u64; NWORDS_FIELD];

fn small(v: u64) -> Fp {
    let mut out = ZERO;
    fp_set_small(&mut out, v);
    out
}

fn elt(re: u64, im: u64) -> Fp2 {
    Fp2 { re: small(re), im: small(im) }
}

fn enc(a: &Fp) -> [u8; 32] {
    let mut out = [0u8; 32];
    fp_encode(&mut out, a);
    out
}

fn enc_u64(v: u64) -> [u8; 32] {
    let mut out = [0u8; 32];
    out[..8].copy_from_slice(&v.to_le_bytes());
    out
}

fn zero2() -> Fp2 {
    Fp2 { re: ZERO, im: ZERO }
}

fn p_minus(v: u8) -> [u8; 32] {
    let mut out = [0xffu8; 32];
    out[0] = 0xff - v;
    out[31] = 0x04;
    out
}

#[test]
fn set_small_one_zero_and_predicates() {
    let mut x = zero2();
    fp2_set_small(&mut x, 9);
    assert_eq!(enc(&x.re), enc_u64(9));
    assert_eq!(x.im, ZERO);
    fp2_set_one(&mut x);
    assert_eq!(x.re, MONTGOMERY_ONE);
    assert_eq!(fp2_is_one(&x), 0xFFFF_FFFF);
    assert_eq!(fp2_is_zero(&x), 0);
    fp2_set_zero(&mut x);
    assert_eq!(x, zero2());
    assert_eq!(fp2_is_zero(&x), 0xFFFF_FFFF);
    assert_eq!(fp2_is_one(&x), 0);
    let alias: Fp2t = elt(1, 0);
    assert_eq!(fp2_is_one(&alias), 0xFFFF_FFFF);
}

#[test]
fn add_sub_neg_add_one_half() {
    let a = elt(5, 7);
    let b = elt(2, 10);
    let mut s = zero2();
    fp2_add(&mut s, &a, &b);
    assert_eq!((enc(&s.re), enc(&s.im)), (enc_u64(7), enc_u64(17)));
    let mut d = zero2();
    fp2_sub(&mut d, &a, &b);
    assert_eq!((enc(&d.re), enc(&d.im)), (enc_u64(3), p_minus(3)));
    let mut n = zero2();
    fp2_neg(&mut n, &a);
    assert_eq!((enc(&n.re), enc(&n.im)), (p_minus(5), p_minus(7)));
    let mut o = zero2();
    fp2_add_one(&mut o, &a);
    assert_eq!(enc(&o.re), enc_u64(6));
    assert_eq!(o.im, a.im);
    let mut h = zero2();
    fp2_half(&mut h, &b);
    assert_eq!((enc(&h.re), enc(&h.im)), (enc_u64(1), enc_u64(5)));
    let mut m = zero2();
    fp2_mul_small(&mut m, &a, 3);
    assert_eq!((enc(&m.re), enc(&m.im)), (enc_u64(15), enc_u64(21)));
}

#[test]
fn mul_and_sqr_values() {
    let mut x = zero2();
    fp2_mul(&mut x, &elt(1, 2), &elt(3, 4));
    assert_eq!((enc(&x.re), enc(&x.im)), (p_minus(5), enc_u64(10)));
    let mut y = zero2();
    fp2_mul(&mut y, &elt(3, 4), &elt(1, 2));
    assert_eq!(x, y);
    let mut s = zero2();
    fp2_sqr(&mut s, &elt(1, 2));
    assert_eq!((enc(&s.re), enc(&s.im)), (p_minus(3), enc_u64(4)));
    let mut m = zero2();
    fp2_mul(&mut m, &elt(1, 2), &elt(1, 2));
    assert_eq!(fp2_is_equal(&s, &m), 0xFFFF_FFFF);
}

#[test]
fn inverse_times_element_is_one() {
    for (re, im) in [(1u64, 2u64), (3, 0), (0, 5), (123, 456)] {
        let a = elt(re, im);
        let mut inv = a;
        fp2_inv(&mut inv);
        let mut prod = zero2();
        fp2_mul(&mut prod, &inv, &a);
        assert_eq!(fp2_is_one(&prod), 0xFFFF_FFFF);
    }
    let mut z = zero2();
    fp2_inv(&mut z);
    assert_eq!(fp2_is_zero(&z), 0xFFFF_FFFF);
}

#[test]
fn squares_and_square_roots() {
    assert_eq!(fp2_is_square(&elt(2, 3)), 0);
    assert_eq!(fp2_is_square(&elt(1, 2)), 0xFFFF_FFFF);
    for (re, im) in [(1u64, 2u64), (4, 0), (3, 0), (0, 1), (5, 12)] {
        let mut sq = zero2();
        fp2_sqr(&mut sq, &elt(re, im));
        let mut r = sq;
        fp2_sqrt(&mut r);
        let mut back = zero2();
        fp2_sqr(&mut back, &r);
        assert_eq!(fp2_is_equal(&back, &sq), 0xFFFF_FFFF);
        let mut v = sq;
        assert_eq!(fp2_sqrt_verify(&mut v), 0xFFFF_FFFF);
        assert_eq!(v, r);
    }
    let mut ns = elt(2, 3);
    assert_eq!(fp2_sqrt_verify(&mut ns), 0);
}

#[test]
fn fp2_encode_decode_round_trip() {
    let a = elt(0x1234, 0x5678);
    let mut bytes = [0u8; FP2_ENCODED_BYTES];
    fp2_encode(&mut bytes, &a);
    assert_eq!(&bytes[..32], &enc_u64(0x1234)[..]);
    assert_eq!(&bytes[32..], &enc_u64(0x5678)[..]);
    let mut d = zero2();
    assert_eq!(fp2_decode(&mut d, &bytes), 0xFFFF_FFFF);
    assert_eq!(fp2_is_equal(&d, &a), 0xFFFF_FFFF);
    bytes[63] = 0xff;
    assert_eq!(fp2_decode(&mut d, &bytes), 0);
    assert_eq!(d.im, ZERO);
    assert_eq!(enc(&d.re), enc_u64(0x1234));
}

#[test]
fn select_copy_and_cswap() {
    let a = elt(1, 2);
    let b = elt(3, 4);
    let mut d = zero2();
    fp2_select(&mut d, &a, &b, 0);
    assert_eq!(d, a);
    fp2_select(&mut d, &a, &b, 0xFFFF_FFFF);
    assert_eq!(d, b);
    let mut c = zero2();
    fp2_copy(&mut c, &a);
    assert_eq!(c, a);
    let (mut x, mut y) = (a, b);
    fp2_cswap(&mut x, &mut y, 0);
    assert_eq!((x, y), (a, b));
    fp2_cswap(&mut x, &mut y, 1);
    assert_eq!((x, y), (b, a));
}

#[test]
fn batched_inverse_matches_single_inverses() {
    let inputs = [elt(1, 2), elt(3, 0), elt(7, 9), elt(0, 11)];
    let mut xs = inputs;
    fp2_batched_inv(&mut xs);
    for (i, a) in inputs.iter().enumerate() {
        let mut single = *a;
        fp2_inv(&mut single);
        assert_eq!(fp2_is_equal(&xs[i], &single), 0xFFFF_FFFF);
        let mut prod = zero2();
        fp2_mul(&mut prod, &xs[i], a);
        assert_eq!(fp2_is_one(&prod), 0xFFFF_FFFF);
    }
    let mut empty: [Fp2; 0] = [];
    fp2_batched_inv(&mut empty);
}

#[test]
fn pow_vartime_small_exponents() {
    let x = elt(2, 1);
    let mut out = zero2();
    fp2_pow_vartime(&mut out, &x, &[]);
    assert_eq!(fp2_is_one(&out), 0xFFFF_FFFF);
    fp2_pow_vartime(&mut out, &x, &[3]);
    let mut sq = zero2();
    let mut cube = zero2();
    fp2_sqr(&mut sq, &x);
    fp2_mul(&mut cube, &sq, &x);
    assert_eq!(fp2_is_equal(&out, &cube), 0xFFFF_FFFF);
    // (2 + i)^3 = 2 + 11 i
    assert_eq!((enc(&out.re), enc(&out.im)), (enc_u64(2), enc_u64(11)));
    // x^(2^64) equals 64 squarings.
    fp2_pow_vartime(&mut out, &x, &[0, 1]);
    let mut acc = x;
    for _ in 0..64 {
        let snap = acc;
        fp2_sqr(&mut acc, &snap);
    }
    assert_eq!(fp2_is_equal(&out, &acc), 0xFFFF_FFFF);
}

#[test]
fn fp2_inv_of_zero_is_zero_pair() {
    let mut z = zero2();
    fp2_inv(&mut z);
    assert_eq!(z, zero2());
}

#[test]
fn fp2_sqrt_picks_the_root_with_even_real_part() {
    // (2 + i)^2 = 3 + 4i: the root 2 + i already has an even real part.
    let mut a = elt(3, 4);
    fp2_sqrt(&mut a);
    assert_eq!(fp2_is_equal(&a, &elt(2, 1)), 0xFFFF_FFFF);
    // (3 + 2i)^2 = 5 + 12i: 3 is odd, so the root is -(3 + 2i).
    let mut b = elt(5, 12);
    fp2_sqrt(&mut b);
    let mut neg = zero2();
    fp2_neg(&mut neg, &elt(3, 2));
    assert_eq!(fp2_is_equal(&b, &neg), 0xFFFF_FFFF);
    let mut c = elt(5, 12);
    assert_eq!(fp2_sqrt_verify(&mut c), 0xFFFF_FFFF);
}
