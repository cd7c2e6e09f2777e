use sqisign_gf::{
    fp_decode, fp_decode_reduce, fp_encode, fp_exp3div4, fp_inv, fp_is_equal, fp_is_square, fp_is_zero, fp_mul,
    fp_set_small, fp_sqr, fp_sqrt, Fp, MONTGOMERY_ONE, NWORDS_FIELD,
};

fn small(v: u64) -> Fp {
    let mut out = [0u64; NWORDS_FIELD];
    fp_set_small(&mut out, v);
    out
}

fn enc(a: &Fp) -> [u8; 32] {
    let mut out = [0u8; 32];
    fp_encode(&mut out, a);
    out
}

fn enc_u64(v: u64) -> [u8; 32] {
    let mut out = [0u8; 32];
    out[..8].copy_from_slice(&v.to_le_bytes());
    out
}

const P_BYTES: [u8; 32] = [
    0xff, 0xff, 0xff, 0xff, 0xff, 0xff, 0xff, 0xff, 0xff, 0xff, 0xff, 0xff, 0xff, 0xff, 0xff, 0xff, 0xff, 0xff,
    0xff, 0xff, 0xff, 0xff, 0xff, 0xff, 0xff, 0xff, 0xff, 0xff, 0xff, 0xff, 0xff, 0x04,
];

#[test]
fn exp3div4_of_two() {
    let expected: [u8; 32] = [
        0x89, 0x74, 0xa9, 0x06, 0x95, 0x2e, 0xc0, 0x7f, 0x08, 0x9b, 0xa3, 0xb4, 0x10, 0xee, 0x92, 0xf6, 0xb4,
        0x44, 0xcb, 0x1f, 0xf8, 0x9e, 0x4b, 0xf1, 0x62, 0x39, 0xbe, 0x0e, 0x9f, 0x07, 0x9d, 0x00,
    ];
    let mut out = [0u64; NWORDS_FIELD];
    fp_exp3div4(&mut out, &small(2));
    assert_eq!(enc(&out), expected);
}

#[test]
fn inverse_of_three_and_products_with_inverses() {
    let mut x = small(3);
    fp_inv(&mut x);
    let mut expected = [0x55u8; 32];
    expected[31] = 0x03;
    assert_eq!(enc(&x), expected);
    for v in [1u64, 2, 3, 5, 1234567, 0x7fff_ffff] {
        let a = small(v);
        let mut inv = a;
        fp_inv(&mut inv);
        let mut prod = [0u64; NWORDS_FIELD];
        fp_mul(&mut prod, &inv, &a);
        assert_eq!(fp_is_equal(&prod, &MONTGOMERY_ONE), 0xFFFF_FFFF);
    }
    let mut z = [0u64; NWORDS_FIELD];
    fp_inv(&mut z);
    assert_eq!(fp_is_zero(&z), 0xFFFF_FFFF);
}

#[test]
fn squares_and_non_squares() {
    assert_eq!(fp_is_square(&[0u64; NWORDS_FIELD]), 0xFFFF_FFFF);
    assert_eq!(fp_is_square(&MONTGOMERY_ONE), 0xFFFF_FFFF);
    assert_eq!(fp_is_square(&small(2)), 0xFFFF_FFFF);
    assert_eq!(fp_is_square(&small(5)), 0xFFFF_FFFF);
    assert_eq!(fp_is_square(&small(3)), 0);
    let mut minus_one = [0u64; NWORDS_FIELD];
    sqisign_gf::fp_neg(&mut minus_one, &MONTGOMERY_ONE);
    assert_eq!(fp_is_square(&minus_one), 0);
}

#[test]
fn square_roots_of_squares() {
    let mut r = small(4);
    fp_sqrt(&mut r);
    assert_eq!(enc(&r), enc_u64(2));
    for v in [2u64, 5, 9, 16, 1000001] {
        let a = small(v);
        if fp_is_square(&a) == 0xFFFF_FFFF {
            let mut s = a;
            fp_sqrt(&mut s);
            let mut sq = [0u64; NWORDS_FIELD];
            fp_sqr(&mut sq, &s);
            assert_eq!(fp_is_equal(&sq, &a), 0xFFFF_FFFF);
        }
    }
}

#[test]
fn encode_decode_round_trip() {
    for (v, positional) in [
        (0u64, 0u64),
        (1, 1),
        (2, 2),
        (255, 255),
        (256, 256),
        (0x7fff_ffff, 0x7fff_ffff),
        // narrowed to i32 and sign-extended before conversion
        (0xdead_beef, 0xffff_ffff_dead_beef),
    ] {
        let a = small(v);
        let bytes = enc(&a);
        assert_eq!(bytes, enc_u64(positional));
        let mut d = [1u64; NWORDS_FIELD];
        assert_eq!(fp_decode(&mut d, &bytes), 0xFFFF_FFFF);
        assert_eq!(fp_is_equal(&d, &a), 0xFFFF_FFFF);
        assert_eq!(enc(&d), bytes);
    }
}

#[test]
fn decode_rejects_values_not_below_p() {
    let mut d = [1u64; NWORDS_FIELD];
    assert_eq!(fp_decode(&mut d, &P_BYTES), 0);
    assert_eq!(d, [0u64; NWORDS_FIELD]);
    let mut p_minus_1 = P_BYTES;
    p_minus_1[0] = 0xfe;
    assert_eq!(fp_decode(&mut d, &p_minus_1), 0xFFFF_FFFF);
    assert_eq!(enc(&d), p_minus_1);
    assert_eq!(fp_decode(&mut d, &[0xff; 32]), 0);
    assert_eq!(d, [0u64; NWORDS_FIELD]);
}

#[test]
fn decode_reduce_empty_and_short() {
    let mut d = [9u64; NWORDS_FIELD];
    fp_decode_reduce(&mut d, &[]);
    assert_eq!(d, [0u64; NWORDS_FIELD]);
    fp_decode_reduce(&mut d, &[7, 1]);
    assert_eq!(enc(&d), enc_u64(0x107));
}

#[test]
fn decode_reduce_one_block_matches_decode() {
    let mut block = [0u8; 32];
    for (i, b) in block.iter_mut().enumerate() {
        *b = (3 * i + 1) as u8;
    }
    block[31] = 0x04;
    let mut d1 = [0u64; NWORDS_FIELD];
    let mut d2 = [0u64; NWORDS_FIELD];
    fp_decode_reduce(&mut d1, &block);
    assert_eq!(fp_decode(&mut d2, &block), 0xFFFF_FFFF);
    assert_eq!(fp_is_equal(&d1, &d2), 0xFFFF_FFFF);
}

#[test]
fn decode_reduce_long_inputs() {
    let expected_ff: [u8; 32] = [
        0x6f, 0x3d, 0x33, 0x33, 0x33, 0x33, 0x33, 0x33, 0x33, 0x33, 0x33, 0x33, 0x33, 0x33, 0x33, 0x33, 0x33,
        0x33, 0x33, 0x33, 0x33, 0x33, 0x33, 0x33, 0x33, 0x33, 0x33, 0x33, 0x33, 0x33, 0x33, 0x03,
    ];
    let mut d = [0u64; NWORDS_FIELD];
    fp_decode_reduce(&mut d, &[0xff; 64]);
    assert_eq!(enc(&d), expected_ff);
    let src: Vec<u8> = (1..=100u32).map(|x| x as u8).collect();
    let expected_100: [u8; 32] = [
        0xae, 0x2a, 0x0b, 0x27, 0x22, 0x6d, 0x45, 0xac, 0x09, 0x90, 0x72, 0xe4, 0x18, 0x43, 0x96, 0x45, 0x84,
        0x85, 0x7c, 0x9c, 0x18, 0x24, 0xf2, 0xb5, 0xa2, 0xeb, 0xc3, 0x5e, 0xef, 0xa8, 0xbe, 0x02,
    ];
    fp_decode_reduce(&mut d, &src);
    assert_eq!(enc(&d), expected_100);
}

#[test]
fn decode_reduce_block_folding_just_above_p() {
    // Top byte 9 and all lower bits set: folding the top byte leaves
    // p + 1, which is brought below p; the value modulo p is 1.
    let mut block = [0xffu8; 32];
    block[31] = 0x09;
    let mut d = [5u64; NWORDS_FIELD];
    fp_decode_reduce(&mut d, &block);
    assert_eq!(fp_is_equal(&d, &MONTGOMERY_ONE), 0xFFFF_FFFF);
    assert_eq!(enc(&d), enc_u64(1));
    // A block that folds to exactly p gives zero.
    let mut exact_p = [0xffu8; 32];
    exact_p[0] = 0xfe;
    exact_p[31] = 0x09;
    fp_decode_reduce(&mut d, &exact_p);
    assert_eq!(fp_is_zero(&d), 0xFFFF_FFFF);
    // Top byte 0xfe and all lower bits set folds to p + 50, the largest
    // fold; the bytes spell 255 * 2^248 - 1, which is 50 modulo p.
    let mut top = [0xffu8; 32];
    top[31] = 0xfe;
    fp_decode_reduce(&mut d, &top);
    assert_eq!(enc(&d), enc_u64(50));
}

#[test]
fn inv_of_zero_is_zero_limbs() {
    let mut z = [0u64; NWORDS_FIELD];
    fp_inv(&mut z);
    assert_eq!(z, [0u64; NWORDS_FIELD]);
}
