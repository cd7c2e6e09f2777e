//! Montgomery multiplication and squaring, and the conversions into and
//! out of the Montgomery domain.
use vstd::prelude::*;
use vstd::arithmetic::mul::*;
use crate::Fp;
use crate::arith::{lemma_mont_product, lemma_mont_reduce, lemma_prod_columns};
use crate::field_spec::{
    canonical, fp_value, fp_wf, lemma_r_inv, limbs_below, limbs_val, modulus, mont_r, mont_r_inv, mul_fits,
    w1, w2, w3, w4,
};

verus! {

/// The prime's only non-zero limb in radix `2^51` (`p = P4 * 2^204 - 1`).
pub const P4: u64 = 0x500000000000;

/// Wrapping 128-bit addition.
#[verifier::opaque]
pub open spec fn wadd(x: u128, y: u128) -> u128 {
    vstd::wrapping::u128_specs::wrapping_add(x, y)
}

/// The full 128-bit product of two limbs.
#[verifier::opaque]
pub open spec fn prod(x: u64, y: u64) -> u128 {
    (x as nat * y as nat) as u128
}

/// The low 51 bits of an accumulator.
#[verifier::opaque]
pub open spec fn lo51(t: u128) -> u64 {
    (t as u64) & 0x7ffffffffffffu64
}

/// The limbs that Montgomery multiplication produces, for any input limbs:
/// the schoolbook columns of `a * b` with the reduction by `p` folded in
/// at columns 4..=8, on a wrapping 128-bit accumulator.
pub open spec fn spec_modmul(a: Fp, b: Fp) -> Fp {
    let t = prod(a[0], b[0]);
    let v0 = lo51(t);
    let t = t >> 51u128;
    let t = wadd(wadd(t, prod(a[0], b[1])), prod(a[1], b[0]));
    let v1 = lo51(t);
    let t = t >> 51u128;
    let t = wadd(wadd(wadd(t, prod(a[0], b[2])), prod(a[1], b[1])), prod(a[2], b[0]));
    let v2 = lo51(t);
    let t = t >> 51u128;
    let t = wadd(wadd(wadd(wadd(t, prod(a[0], b[3])), prod(a[1], b[2])), prod(a[2], b[1])), prod(a[3], b[0]));
    let v3 = lo51(t);
    let t = t >> 51u128;
    let t = wadd(wadd(wadd(wadd(wadd(wadd(t, prod(a[0], b[4])), prod(a[1], b[3])), prod(a[2], b[2])), prod(a[3], b[1])), prod(a[4], b[0])), prod(v0, P4));
    let v4 = lo51(t);
    let t = t >> 51u128;
    let t = wadd(wadd(wadd(wadd(wadd(t, prod(a[1], b[4])), prod(a[2], b[3])), prod(a[3], b[2])), prod(a[4], b[1])), prod(v1, P4));
    let c0 = lo51(t);
    let t = t >> 51u128;
    let t = wadd(wadd(wadd(wadd(t, prod(a[2], b[4])), prod(a[3], b[3])), prod(a[4], b[2])), prod(v2, P4));
    let c1 = lo51(t);
    let t = t >> 51u128;
    let t = wadd(wadd(wadd(t, prod(a[3], b[4])), prod(a[4], b[3])), prod(v3, P4));
    let c2 = lo51(t);
    let t = t >> 51u128;
    let t = wadd(wadd(t, prod(a[4], b[4])), prod(v4, P4));
    let c3 = lo51(t);
    let t = t >> 51u128;
    let c4 = t as u64;
    [c0, c1, c2, c3, c4]
}

/// The exact product of two limbs.
fn mul_limbs(x: u64, y: u64) -> (r: u128)
    ensures
        r == prod(x, y),
        r as nat == x as nat * y as nat,
{
    proof {
        reveal(prod);
        lemma_mul_upper_bound(x as int, u64::MAX as int, y as int, u64::MAX as int);
    }
    (x as u128) * (y as u128)
}

/// Split an accumulator into its low 51 bits and the rest.
pub proof fn lemma_lo51(t: u128)
    ensures
        lo51(t) as nat == t as nat % 0x8000000000000,
        (t >> 51u128) as nat == t as nat / 0x8000000000000,
        lo51(t) < 0x8000000000000u64,
{
    reveal(lo51);
    crate::bits::lemma_u128_bits(t);
}

/// Under `mul_fits`, every limb product is at most `2^122`.
pub proof fn lemma_prod_fits(a: Fp, b: Fp)
    requires
        mul_fits(a, b),
    ensures
        forall|i: int, j: int| 0 <= i < 5 && 0 <= j < 5 ==> #[trigger] prod(a[i], b[j]) as nat <= 0x4000000000000000000000000000000,
        forall|i: int, j: int| 0 <= i < 5 && 0 <= j < 5 ==> (#[trigger] prod(a[i], b[j])) as nat == a[i] as nat * b[j] as nat,
{
    reveal(prod);
    assert forall|i: int, j: int| 0 <= i < 5 && 0 <= j < 5 implies
        #[trigger] prod(a[i], b[j]) as nat <= 0x4000000000000000000000000000000
        && prod(a[i], b[j]) as nat == a[i] as nat * b[j] as nat by {
        let x = a[i] as nat;
        let y = b[j] as nat;
        if limbs_below(a, 0x2000000000000000) && limbs_below(b, 0x2000000000000000) {
            assert(x * y <= 0x4000000000000000000000000000000) by (nonlinear_arith)
                requires x < 0x2000000000000000, y < 0x2000000000000000;
        } else if limbs_below(b, 0x400000000000000) {
            assert(x * y <= 0x4000000000000000000000000000000) by (nonlinear_arith)
                requires x < 0x10000000000000000, y < 0x400000000000000;
        } else {
            assert(x * y <= 0x4000000000000000000000000000000) by (nonlinear_arith)
                requires x < 0x400000000000000, y < 0x10000000000000000;
        }
    }
}

/// A reduction-limb product `v * P4` with `v < 2^51` fits in 98 bits.
pub proof fn lemma_prod_p4(v: u64)
    requires
        v < 0x8000000000000u64,
    ensures
        prod(v, P4) as nat == v as nat * 0x500000000000,
        (prod(v, P4) as nat) < 0x4000000000000000000000000,
{
    reveal(prod);
    assert(v as nat * 0x500000000000 < 0x4000000000000000000000000);
}

/// Wrapping addition that does not wrap is addition.
pub proof fn lemma_wadd(x: u128, y: u128)
    requires
        x + y <= u128::MAX,
    ensures
        wadd(x, y) == x + y,
{
    reveal(wadd);
}

/// The carry chain of a Montgomery product, as integers: the weighted column
/// sums equal the low digits plus `2^459` times the final carry.
pub proof fn lemma_telescope(
    t0: int, s1: int, s2: int, s3: int, s4: int, s5: int, s6: int, s7: int, s8: int,
    r0: int, r1: int, r2: int, r3: int, r4: int, r5: int, r6: int, r7: int, r8: int,
    u0: int, u1: int, u2: int, u3: int, u4: int, u5: int, u6: int, u7: int, u8: int,
)
    requires
        t0 == u0 * 0x8000000000000 + r0,
        u0 + s1 == u1 * 0x8000000000000 + r1,
        u1 + s2 == u2 * 0x8000000000000 + r2,
        u2 + s3 == u3 * 0x8000000000000 + r3,
        u3 + s4 == u4 * 0x8000000000000 + r4,
        u4 + s5 == u5 * 0x8000000000000 + r5,
        u5 + s6 == u6 * 0x8000000000000 + r6,
        u6 + s7 == u7 * 0x8000000000000 + r7,
        u7 + s8 == u8 * 0x8000000000000 + r8,
    ensures
        t0 + s1 * w1() + s2 * w2() + s3 * w3() + s4 * w4()
        + s5 * 57896044618658097711785492504343953926634992332820282019728792003956564819968int
        + s6 * 130370302485407109521180524058200202307293977194619920040712988758680403184853549195737432064int
        + s7 * 293567822846729153486185074598667128421960318613539983838411371441526128139326055432962374798096087878991872int
        + s8 * 661055968790248598951915308032771039828404682964281219284648795274405791236311345825189210439715284847591212025023358304256int
        == r0 + r1 * w1() + r2 * w2() + r3 * w3() + r4 * w4()
        + (r5 + r6 * w1() + r7 * w2() + r8 * w3() + u8 * w4()) * mont_r(),
{
}

/// The product of two limb vectors, expanded into its nine columns of limb
/// products (valid when no limb product exceeds 128 bits).
pub proof fn lemma_product_as_columns(a: Fp, b: Fp)
    requires
        mul_fits(a, b),
    ensures
        limbs_val(a) * limbs_val(b) == prod(a[0], b[0]) as int
         + (prod(a[0], b[1]) + prod(a[1], b[0])) * w1()
         + (prod(a[0], b[2]) + prod(a[1], b[1]) + prod(a[2], b[0])) * w2()
         + (prod(a[0], b[3]) + prod(a[1], b[2]) + prod(a[2], b[1]) + prod(a[3], b[0])) * w3()
         + (prod(a[0], b[4]) + prod(a[1], b[3]) + prod(a[2], b[2]) + prod(a[3], b[1]) + prod(a[4], b[0])) * w4()
         + (prod(a[1], b[4]) + prod(a[2], b[3]) + prod(a[3], b[2]) + prod(a[4], b[1])) * 57896044618658097711785492504343953926634992332820282019728792003956564819968int
         + (prod(a[2], b[4]) + prod(a[3], b[3]) + prod(a[4], b[2])) * 130370302485407109521180524058200202307293977194619920040712988758680403184853549195737432064int
         + (prod(a[3], b[4]) + prod(a[4], b[3])) * 293567822846729153486185074598667128421960318613539983838411371441526128139326055432962374798096087878991872int
         + prod(a[4], b[4]) * 661055968790248598951915308032771039828404682964281219284648795274405791236311345825189210439715284847591212025023358304256int,
{
    lemma_prod_fits(a, b);
    lemma_prod_columns(a[0] as int, a[1] as int, a[2] as int, a[3] as int, a[4] as int,
        b[0] as int, b[1] as int, b[2] as int, b[3] as int, b[4] as int);
    assert(prod(a[0], b[0]) as int == a[0] * b[0]);
    assert(prod(a[0], b[1]) as int == a[0] * b[1]);
    assert(prod(a[0], b[2]) as int == a[0] * b[2]);
    assert(prod(a[0], b[3]) as int == a[0] * b[3]);
    assert(prod(a[0], b[4]) as int == a[0] * b[4]);
    assert(prod(a[1], b[0]) as int == a[1] * b[0]);
    assert(prod(a[1], b[1]) as int == a[1] * b[1]);
    assert(prod(a[1], b[2]) as int == a[1] * b[2]);
    assert(prod(a[1], b[3]) as int == a[1] * b[3]);
    assert(prod(a[1], b[4]) as int == a[1] * b[4]);
    assert(prod(a[2], b[0]) as int == a[2] * b[0]);
    assert(prod(a[2], b[1]) as int == a[2] * b[1]);
    assert(prod(a[2], b[2]) as int == a[2] * b[2]);
    assert(prod(a[2], b[3]) as int == a[2] * b[3]);
    assert(prod(a[2], b[4]) as int == a[2] * b[4]);
    assert(prod(a[3], b[0]) as int == a[3] * b[0]);
    assert(prod(a[3], b[1]) as int == a[3] * b[1]);
    assert(prod(a[3], b[2]) as int == a[3] * b[2]);
    assert(prod(a[3], b[3]) as int == a[3] * b[3]);
    assert(prod(a[3], b[4]) as int == a[3] * b[4]);
    assert(prod(a[4], b[0]) as int == a[4] * b[0]);
    assert(prod(a[4], b[1]) as int == a[4] * b[1]);
    assert(prod(a[4], b[2]) as int == a[4] * b[2]);
    assert(prod(a[4], b[3]) as int == a[4] * b[3]);
    assert(prod(a[4], b[4]) as int == a[4] * b[4]);
}

/// Montgomery multiplication is exact when it does not wrap: for limbs that
/// fit (`mul_fits`) and a product below `R * p`, the output limbs 0..=3 are
/// below `2^51`, its value is below `2p`, and `R * c = a * b + q * p` for
/// some `q < R`.
#[verifier::rlimit(100)]
pub proof fn lemma_modmul_value(a: Fp, b: Fp)
    requires
        mul_fits(a, b),
        limbs_val(a) * limbs_val(b) < mont_r() * modulus(),
    ensures
        ({
            let c = spec_modmul(a, b);
            &&& c[0] < 0x8000000000000u64
            &&& c[1] < 0x8000000000000u64
            &&& c[2] < 0x8000000000000u64
            &&& c[3] < 0x8000000000000u64
            &&& limbs_val(c) < 2 * modulus()
            &&& exists|q: nat| q < mont_r() && limbs_val(c) * mont_r()
                == limbs_val(a) * limbs_val(b) + #[trigger] (q * modulus())
        }),
{
    reveal(spec_modmul);
    lemma_prod_fits(a, b);
    let p00 = prod(a[0], b[0]); let p01 = prod(a[0], b[1]); let p02 = prod(a[0], b[2]);
    let p03 = prod(a[0], b[3]); let p04 = prod(a[0], b[4]);
    let p10 = prod(a[1], b[0]); let p11 = prod(a[1], b[1]); let p12 = prod(a[1], b[2]);
    let p13 = prod(a[1], b[3]); let p14 = prod(a[1], b[4]);
    let p20 = prod(a[2], b[0]); let p21 = prod(a[2], b[1]); let p22 = prod(a[2], b[2]);
    let p23 = prod(a[2], b[3]); let p24 = prod(a[2], b[4]);
    let p30 = prod(a[3], b[0]); let p31 = prod(a[3], b[1]); let p32 = prod(a[3], b[2]);
    let p33 = prod(a[3], b[3]); let p34 = prod(a[3], b[4]);
    let p40 = prod(a[4], b[0]); let p41 = prod(a[4], b[1]); let p42 = prod(a[4], b[2]);
    let p43 = prod(a[4], b[3]); let p44 = prod(a[4], b[4]);
    let big: int = 0x4000000000000000000000000000000;
    assert(p00 <= big && p01 <= big && p02 <= big && p03 <= big && p04 <= big);
    assert(p10 <= big && p11 <= big && p12 <= big && p13 <= big && p14 <= big);
    assert(p20 <= big && p21 <= big && p22 <= big && p23 <= big && p24 <= big);
    assert(p30 <= big && p31 <= big && p32 <= big && p33 <= big && p34 <= big);
    assert(p40 <= big && p41 <= big && p42 <= big && p43 <= big && p44 <= big);

    let t0 = p00;
    lemma_lo51(t0);
    let v0 = lo51(t0);
    let u0 = t0 >> 51u128;
    lemma_prod_p4(v0);
    lemma_wadd(u0, p01);
    lemma_wadd(wadd(u0, p01), p10);
    let t1 = wadd(wadd(u0, p01), p10);
    lemma_lo51(t1);
    let v1 = lo51(t1);
    let u1 = t1 >> 51u128;
    lemma_prod_p4(v1);
    lemma_wadd(u1, p02);
    lemma_wadd(wadd(u1, p02), p11);
    lemma_wadd(wadd(wadd(u1, p02), p11), p20);
    let t2 = wadd(wadd(wadd(u1, p02), p11), p20);
    lemma_lo51(t2);
    let v2 = lo51(t2);
    let u2 = t2 >> 51u128;
    lemma_prod_p4(v2);
    lemma_wadd(u2, p03);
    lemma_wadd(wadd(u2, p03), p12);
    lemma_wadd(wadd(wadd(u2, p03), p12), p21);
    lemma_wadd(wadd(wadd(wadd(u2, p03), p12), p21), p30);
    let t3 = wadd(wadd(wadd(wadd(u2, p03), p12), p21), p30);
    lemma_lo51(t3);
    let v3 = lo51(t3);
    let u3 = t3 >> 51u128;
    lemma_prod_p4(v3);
    let pv0 = prod(v0, P4);
    lemma_wadd(u3, p04);
    lemma_wadd(wadd(u3, p04), p13);
    lemma_wadd(wadd(wadd(u3, p04), p13), p22);
    lemma_wadd(wadd(wadd(wadd(u3, p04), p13), p22), p31);
    lemma_wadd(wadd(wadd(wadd(wadd(u3, p04), p13), p22), p31), p40);
    lemma_wadd(wadd(wadd(wadd(wadd(wadd(u3, p04), p13), p22), p31), p40), pv0);
    let t4 = wadd(wadd(wadd(wadd(wadd(wadd(u3, p04), p13), p22), p31), p40), pv0);
    lemma_lo51(t4);
    let v4 = lo51(t4);
    let u4 = t4 >> 51u128;
    lemma_prod_p4(v4);
    let pv1 = prod(v1, P4);
    lemma_wadd(u4, p14);
    lemma_wadd(wadd(u4, p14), p23);
    lemma_wadd(wadd(wadd(u4, p14), p23), p32);
    lemma_wadd(wadd(wadd(wadd(u4, p14), p23), p32), p41);
    lemma_wadd(wadd(wadd(wadd(wadd(u4, p14), p23), p32), p41), pv1);
    let t5 = wadd(wadd(wadd(wadd(wadd(u4, p14), p23), p32), p41), pv1);
    lemma_lo51(t5);
    let c0 = lo51(t5);
    let u5 = t5 >> 51u128;
    let pv2 = prod(v2, P4);
    lemma_wadd(u5, p24);
    lemma_wadd(wadd(u5, p24), p33);
    lemma_wadd(wadd(wadd(u5, p24), p33), p42);
    lemma_wadd(wadd(wadd(wadd(u5, p24), p33), p42), pv2);
    let t6 = wadd(wadd(wadd(wadd(u5, p24), p33), p42), pv2);
    lemma_lo51(t6);
    let c1 = lo51(t6);
    let u6 = t6 >> 51u128;
    let pv3 = prod(v3, P4);
    lemma_wadd(u6, p34);
    lemma_wadd(wadd(u6, p34), p43);
    lemma_wadd(wadd(wadd(u6, p34), p43), pv3);
    let t7 = wadd(wadd(wadd(u6, p34), p43), pv3);
    lemma_lo51(t7);
    let c2 = lo51(t7);
    let u7 = t7 >> 51u128;
    let pv4 = prod(v4, P4);
    lemma_wadd(u7, p44);
    lemma_wadd(wadd(u7, p44), pv4);
    let t8 = wadd(wadd(u7, p44), pv4);
    lemma_lo51(t8);
    let c3 = lo51(t8);
    let u8 = t8 >> 51u128;
    let c = spec_modmul(a, b);
    assert(c[0] == c0 && c[1] == c1 && c[2] == c2 && c[3] == c3 && c[4] == u8 as u64);

    let s1: int = p01 + p10;
    let s2: int = p02 + p11 + p20;
    let s3: int = p03 + p12 + p21 + p30;
    let s4: int = p04 + p13 + p22 + p31 + p40 + pv0;
    let s5: int = p14 + p23 + p32 + p41 + pv1;
    let s6: int = p24 + p33 + p42 + pv2;
    let s7: int = p34 + p43 + pv3;
    let s8: int = p44 + pv4;
    lemma_telescope(t0 as int, s1, s2, s3, s4, s5, s6, s7, s8,
        v0 as int, v1 as int, v2 as int, v3 as int, v4 as int, c0 as int, c1 as int, c2 as int, c3 as int,
        u0 as int, u1 as int, u2 as int, u3 as int, u4 as int, u5 as int, u6 as int, u7 as int, u8 as int);
    lemma_product_as_columns(a, b);
    let vq: int = v0 + v1 * w1() + v2 * w2() + v3 * w3() + v4 * w4();
    let x: int = c0 + c1 * w1() + c2 * w2() + c3 * w3() + u8 * w4();
    assert(x * mont_r() == limbs_val(a) * limbs_val(b) + vq * modulus());
    assert(vq < mont_r());
    assert(x < 2 * modulus()) by {
        if x >= 2 * modulus() {
            lemma_mul_inequality(2 * modulus() as int, x, mont_r() as int);
        }
    }
    assert(limbs_val(c) == x);
    assert(limbs_val(c) * mont_r() == limbs_val(a) * limbs_val(b) + (vq as nat) * modulus());
}

/// `2^51 - 1`, the mask of one canonical limb.
pub const MASK51: u64 = 0x7ffffffffffff;

/// Add a limb product into an accumulator, wrapping at 128 bits.
fn acc(t: u128, x: u128) -> (r: u128)
    ensures
        r == wadd(t, x),
{
    proof {
        reveal(wadd);
    }
    t.wrapping_add(x)
}

/// The low 51 bits of an accumulator.
fn low51(t: u128) -> (r: u64)
    ensures
        r == lo51(t),
{
    proof {
        reveal(lo51);
    }
    (t as u64) & MASK51
}

/// Montgomery multiplication: the limbs of `a * b * R^-1` modulo `p`, up to
/// `2p`, for limbs that fit; for any limbs, exactly `spec_modmul(a, b)`.
pub(crate) fn modmul(a: &Fp, b: &Fp) -> (c: Fp)
    ensures
        c == spec_modmul(*a, *b),
{
    let mut t: u128 = mul_limbs(a[0], b[0]);
    let v0: u64 = low51(t);
    t >>= 51;
    t = acc(t, mul_limbs(a[0], b[1]));
    t = acc(t, mul_limbs(a[1], b[0]));
    let v1: u64 = low51(t);
    t >>= 51;
    t = acc(t, mul_limbs(a[0], b[2]));
    t = acc(t, mul_limbs(a[1], b[1]));
    t = acc(t, mul_limbs(a[2], b[0]));
    let v2: u64 = low51(t);
    t >>= 51;
    t = acc(t, mul_limbs(a[0], b[3]));
    t = acc(t, mul_limbs(a[1], b[2]));
    t = acc(t, mul_limbs(a[2], b[1]));
    t = acc(t, mul_limbs(a[3], b[0]));
    let v3: u64 = low51(t);
    t >>= 51;
    t = acc(t, mul_limbs(a[0], b[4]));
    t = acc(t, mul_limbs(a[1], b[3]));
    t = acc(t, mul_limbs(a[2], b[2]));
    t = acc(t, mul_limbs(a[3], b[1]));
    t = acc(t, mul_limbs(a[4], b[0]));
    t = acc(t, mul_limbs(v0, P4));
    let v4: u64 = low51(t);
    t >>= 51;
    t = acc(t, mul_limbs(a[1], b[4]));
    t = acc(t, mul_limbs(a[2], b[3]));
    t = acc(t, mul_limbs(a[3], b[2]));
    t = acc(t, mul_limbs(a[4], b[1]));
    t = acc(t, mul_limbs(v1, P4));
    let c0: u64 = low51(t);
    t >>= 51;
    t = acc(t, mul_limbs(a[2], b[4]));
    t = acc(t, mul_limbs(a[3], b[3]));
    t = acc(t, mul_limbs(a[4], b[2]));
    t = acc(t, mul_limbs(v2, P4));
    let c1: u64 = low51(t);
    t >>= 51;
    t = acc(t, mul_limbs(a[3], b[4]));
    t = acc(t, mul_limbs(a[4], b[3]));
    t = acc(t, mul_limbs(v3, P4));
    let c2: u64 = low51(t);
    t >>= 51;
    t = acc(t, mul_limbs(a[4], b[4]));
    t = acc(t, mul_limbs(v4, P4));
    let c3: u64 = low51(t);
    t >>= 51;
    let c4: u64 = t as u64;
    proof {
        reveal(spec_modmul);
    }
    [c0, c1, c2, c3, c4]
}

/// Well-formed inputs fit Montgomery multiplication, and their product is
/// below `R * p`.
pub proof fn lemma_wf_mul_fits(a: Fp, b: Fp)
    requires
        fp_wf(a),
        fp_wf(b),
    ensures
        mul_fits(a, b),
        limbs_val(a) * limbs_val(b) < mont_r() * modulus(),
{
    let x = limbs_val(a);
    let y = limbs_val(b);
    let m = modulus();
    assert(x * y < mont_r() * m) by (nonlinear_arith)
        requires x < 2 * m, y < 2 * m, 4 * m < mont_r(), m > 0;
}

/// The value of a Montgomery product: if it does not wrap, its field value
/// is the product of the input field values, and its limbs are well formed.
pub proof fn lemma_modmul_fp_value(a: Fp, b: Fp)
    requires
        mul_fits(a, b),
        limbs_val(a) * limbs_val(b) < mont_r() * modulus(),
    ensures
        fp_wf(spec_modmul(a, b)),
        fp_value(spec_modmul(a, b)) == (fp_value(a) * fp_value(b)) % modulus(),
        limbs_val(spec_modmul(a, b)) % modulus()
            == (limbs_val(a) * limbs_val(b) * mont_r_inv()) % modulus(),
{
    let c = spec_modmul(a, b);
    lemma_modmul_value(a, b);
    let q = choose|q: nat| q < mont_r() && limbs_val(c) * mont_r()
        == limbs_val(a) * limbs_val(b) + #[trigger] (q * modulus());
    lemma_r_inv();
    let t = limbs_val(a) * limbs_val(b);
    lemma_mont_reduce(limbs_val(c) as int, t as int, q as int, modulus() as int, mont_r() as int, mont_r_inv() as int);
    lemma_mont_product(limbs_val(a) as int, limbs_val(b) as int, modulus() as int, mont_r_inv() as int);
    lemma_mont_reduce_plain(limbs_val(c) as int, t as int, q as int, modulus() as int, mont_r() as int, mont_r_inv() as int);
}

/// Without the final factor: `c * r == t + q * m` gives `c == t * ri (mod m)`.
pub proof fn lemma_mont_reduce_plain(c: int, t: int, q: int, m: int, r: int, ri: int)
    requires
        m > 0,
        (r * ri) % m == 1,
        c * r == t + q * m,
    ensures
        c % m == (t * ri) % m,
{
    vstd::arithmetic::div_mod::lemma_mul_mod_noop_right(c, r * ri, m);
    assert(c * ((r * ri) % m) == c);
    assert(c * (r * ri) == m * (q * ri) + t * ri) by (nonlinear_arith)
        requires c * r == t + q * m;
    vstd::arithmetic::div_mod::lemma_mod_multiples_vanish(q * ri, t * ri, m);
}
/// Wrapping 128-bit doubling.
#[verifier::opaque]
pub open spec fn wdbl(x: u128) -> u128 {
    vstd::wrapping::u128_specs::wrapping_mul(x, 2)
}

/// The limbs that Montgomery squaring produces, for any input limbs: the
/// columns of `a * a` with each off-diagonal product taken once and doubled,
/// and the reduction by `p` folded in as in `spec_modmul`.
#[verifier::opaque]
pub open spec fn spec_modsqr(a: Fp) -> Fp {
    let tot = prod(a[0], a[0]);
    let t = tot;
    let v0 = lo51(t);
    let t = t >> 51u128;
    let tot = wdbl(prod(a[0], a[1]));
    let t = wadd(t, tot);
    let v1 = lo51(t);
    let t = t >> 51u128;
    let tot = wadd(wdbl(prod(a[0], a[2])), prod(a[1], a[1]));
    let t = wadd(t, tot);
    let v2 = lo51(t);
    let t = t >> 51u128;
    let tot = wdbl(wadd(prod(a[0], a[3]), prod(a[1], a[2])));
    let t = wadd(t, tot);
    let v3 = lo51(t);
    let t = t >> 51u128;
    let tot = wadd(wdbl(wadd(prod(a[0], a[4]), prod(a[1], a[3]))), prod(a[2], a[2]));
    let t = wadd(wadd(t, tot), prod(v0, P4));
    let v4 = lo51(t);
    let t = t >> 51u128;
    let tot = wdbl(wadd(prod(a[1], a[4]), prod(a[2], a[3])));
    let t = wadd(wadd(t, tot), prod(v1, P4));
    let c0 = lo51(t);
    let t = t >> 51u128;
    let tot = wadd(wdbl(prod(a[2], a[4])), prod(a[3], a[3]));
    let t = wadd(wadd(t, tot), prod(v2, P4));
    let c1 = lo51(t);
    let t = t >> 51u128;
    let tot = wdbl(prod(a[3], a[4]));
    let t = wadd(wadd(t, tot), prod(v3, P4));
    let c2 = lo51(t);
    let t = t >> 51u128;
    let tot = prod(a[4], a[4]);
    let t = wadd(wadd(t, tot), prod(v4, P4));
    let c3 = lo51(t);
    let t = t >> 51u128;
    let c4 = t as u64;
    [c0, c1, c2, c3, c4]
}

/// Double an accumulator, wrapping at 128 bits.
fn dbl(x: u128) -> (r: u128)
    ensures
        r == wdbl(x),
{
    proof {
        reveal(wdbl);
    }
    x.wrapping_mul(2)
}

/// Montgomery squaring: for any limbs, exactly `spec_modsqr(a)`, which is
/// the same limbs as `spec_modmul(a, a)`.
pub(crate) fn modsqr(a: &Fp) -> (c: Fp)
    ensures
        c == spec_modsqr(*a),
        c == spec_modmul(*a, *a),
{
    let mut tot: u128 = mul_limbs(a[0], a[0]);
    let mut t: u128 = tot;
    let v0: u64 = low51(t);
    t >>= 51;
    tot = mul_limbs(a[0], a[1]);
    tot = dbl(tot);
    t = acc(t, tot);
    let v1: u64 = low51(t);
    t >>= 51;
    tot = mul_limbs(a[0], a[2]);
    tot = dbl(tot);
    tot = acc(tot, mul_limbs(a[1], a[1]));
    t = acc(t, tot);
    let v2: u64 = low51(t);
    t >>= 51;
    tot = mul_limbs(a[0], a[3]);
    tot = acc(tot, mul_limbs(a[1], a[2]));
    tot = dbl(tot);
    t = acc(t, tot);
    let v3: u64 = low51(t);
    t >>= 51;
    tot = mul_limbs(a[0], a[4]);
    tot = acc(tot, mul_limbs(a[1], a[3]));
    tot = dbl(tot);
    tot = acc(tot, mul_limbs(a[2], a[2]));
    t = acc(t, tot);
    t = acc(t, mul_limbs(v0, P4));
    let v4: u64 = low51(t);
    t >>= 51;
    tot = mul_limbs(a[1], a[4]);
    tot = acc(tot, mul_limbs(a[2], a[3]));
    tot = dbl(tot);
    t = acc(t, tot);
    t = acc(t, mul_limbs(v1, P4));
    let c0: u64 = low51(t);
    t >>= 51;
    tot = mul_limbs(a[2], a[4]);
    tot = dbl(tot);
    tot = acc(tot, mul_limbs(a[3], a[3]));
    t = acc(t, tot);
    t = acc(t, mul_limbs(v2, P4));
    let c1: u64 = low51(t);
    t >>= 51;
    tot = mul_limbs(a[3], a[4]);
    tot = dbl(tot);
    t = acc(t, tot);
    t = acc(t, mul_limbs(v3, P4));
    let c2: u64 = low51(t);
    t >>= 51;
    tot = mul_limbs(a[4], a[4]);
    t = acc(t, tot);
    t = acc(t, mul_limbs(v4, P4));
    let c3: u64 = low51(t);
    t >>= 51;
    let c4: u64 = t as u64;
    proof {
        reveal(spec_modsqr);
        lemma_sqr_is_mul(*a);
    }
    [c0, c1, c2, c3, c4]
}

/// `2^128`.
pub open spec fn m128() -> int {
    0x100000000000000000000000000000000int
}

/// Wrapping addition is addition modulo `2^128`.
pub proof fn lemma_wadd_mod(x: u128, y: u128)
    ensures
        wadd(x, y) as int == (x + y) % m128(),
{
    reveal(wadd);
}

/// Wrapping doubling is doubling modulo `2^128`.
pub proof fn lemma_wdbl_mod(x: u128)
    ensures
        wdbl(x) as int == (2 * x) % m128(),
{
    reveal(wdbl);
}

/// Reducing an inner sum first does not change a sum modulo `2^128`.
pub proof fn lemma_mod_add_inner(x: int, y: int)
    ensures
        ((x % m128()) + y) % m128() == (x + y) % m128(),
        (y + (x % m128())) % m128() == (y + x) % m128(),
        (2 * (x % m128())) % m128() == (2 * x) % m128(),
{
    vstd::arithmetic::div_mod::lemma_add_mod_noop(x, y, m128());
    vstd::arithmetic::div_mod::lemma_add_mod_noop(x % m128(), y, m128());
    vstd::arithmetic::div_mod::lemma_mod_twice(x, m128());
    vstd::arithmetic::div_mod::lemma_add_mod_noop(y, x, m128());
    vstd::arithmetic::div_mod::lemma_add_mod_noop(y, x % m128(), m128());
    vstd::arithmetic::div_mod::lemma_mul_mod_noop_right(2, x, m128());
}

/// Column 1 of a square: `u + p + p == u + 2p` modulo `2^128`.
#[verifier::spinoff_prover]
#[verifier::rlimit(40)]
pub proof fn lemma_col1(u: u128, p: u128)
    ensures
        wadd(wadd(u, p), p) == wadd(u, wdbl(p)),
{
    lemma_wadd_mod(u, p);
    lemma_wadd_mod(wadd(u, p), p);
    lemma_wdbl_mod(p);
    lemma_wadd_mod(u, wdbl(p));
    lemma_mod_add_inner(u + p, p as int);
    lemma_mod_add_inner(2 * p, u as int);
}

/// Column 2 of a square: `u + p + q + p == u + (2p + q)` modulo `2^128`.
#[verifier::spinoff_prover]
#[verifier::rlimit(40)]
pub proof fn lemma_col2(u: u128, p: u128, q: u128)
    ensures
        wadd(wadd(wadd(u, p), q), p) == wadd(u, wadd(wdbl(p), q)),
{
    lemma_wadd_mod(u, p);
    lemma_wadd_mod(wadd(u, p), q);
    lemma_wadd_mod(wadd(wadd(u, p), q), p);
    lemma_mod_add_inner(u + p, q as int);
    lemma_mod_add_inner(u + p + q, p as int);
    lemma_wdbl_mod(p);
    lemma_wadd_mod(wdbl(p), q);
    lemma_wadd_mod(u, wadd(wdbl(p), q));
    lemma_mod_add_inner(2 * p, q as int);
    lemma_mod_add_inner(2 * p + q, u as int);
}

/// Column 3 of a square: `u + p + q + q + p == u + 2(p + q)` modulo `2^128`.
#[verifier::spinoff_prover]
#[verifier::rlimit(40)]
pub proof fn lemma_col3(u: u128, p: u128, q: u128)
    ensures
        wadd(wadd(wadd(wadd(u, p), q), q), p) == wadd(u, wdbl(wadd(p, q))),
{
    lemma_wadd_mod(u, p);
    lemma_wadd_mod(wadd(u, p), q);
    lemma_wadd_mod(wadd(wadd(u, p), q), q);
    lemma_wadd_mod(wadd(wadd(wadd(u, p), q), q), p);
    lemma_mod_add_inner(u + p, q as int);
    lemma_mod_add_inner(u + p + q, q as int);
    lemma_mod_add_inner(u + p + q + q, p as int);
    lemma_wadd_mod(p, q);
    lemma_wdbl_mod(wadd(p, q));
    lemma_wadd_mod(u, wdbl(wadd(p, q)));
    lemma_mod_add_inner(p + q, 0);
    lemma_mod_add_inner(2 * (p + q), u as int);
}

/// Column 4 of a square: `u + p + q + r + q + p + v == u + (2(p + q) + r) + v`
/// modulo `2^128`.
#[verifier::spinoff_prover]
#[verifier::rlimit(40)]
pub proof fn lemma_col4(u: u128, p: u128, q: u128, r: u128, v: u128)
    ensures
        wadd(wadd(wadd(wadd(wadd(wadd(u, p), q), r), q), p), v)
            == wadd(wadd(u, wadd(wdbl(wadd(p, q)), r)), v),
{
    lemma_wadd_mod(u, p);
    lemma_wadd_mod(wadd(u, p), q);
    lemma_wadd_mod(wadd(wadd(u, p), q), r);
    lemma_wadd_mod(wadd(wadd(wadd(u, p), q), r), q);
    lemma_wadd_mod(wadd(wadd(wadd(wadd(u, p), q), r), q), p);
    lemma_wadd_mod(wadd(wadd(wadd(wadd(wadd(u, p), q), r), q), p), v);
    lemma_mod_add_inner(u + p, q as int);
    lemma_mod_add_inner(u + p + q, r as int);
    lemma_mod_add_inner(u + p + q + r, q as int);
    lemma_mod_add_inner(u + p + q + r + q, p as int);
    lemma_mod_add_inner(u + p + q + r + q + p, v as int);
    lemma_wadd_mod(p, q);
    lemma_wdbl_mod(wadd(p, q));
    lemma_wadd_mod(wdbl(wadd(p, q)), r);
    lemma_wadd_mod(u, wadd(wdbl(wadd(p, q)), r));
    lemma_wadd_mod(wadd(u, wadd(wdbl(wadd(p, q)), r)), v);
    lemma_mod_add_inner(p + q, 0);
    lemma_mod_add_inner(2 * (p + q), r as int);
    lemma_mod_add_inner(2 * (p + q) + r, u as int);
    lemma_mod_add_inner(u + (2 * (p + q) + r), v as int);
}

/// Column 5 of a square: `u + p + q + q + p + v == u + 2(p + q) + v` modulo `2^128`.
pub proof fn lemma_col5(u: u128, p: u128, q: u128, v: u128)
    ensures
        wadd(wadd(wadd(wadd(wadd(u, p), q), q), p), v) == wadd(wadd(u, wdbl(wadd(p, q))), v),
{
    lemma_col3(u, p, q);
}

/// Column 6 of a square: `u + p + q + p + v == u + (2p + q) + v` modulo `2^128`.
pub proof fn lemma_col6(u: u128, p: u128, q: u128, v: u128)
    ensures
        wadd(wadd(wadd(wadd(u, p), q), p), v) == wadd(wadd(u, wadd(wdbl(p), q)), v),
{
    lemma_col2(u, p, q);
}

/// Column 7 of a square: `u + p + p + v == u + 2p + v` modulo `2^128`.
pub proof fn lemma_col7(u: u128, p: u128, v: u128)
    ensures
        wadd(wadd(wadd(u, p), p), v) == wadd(wadd(u, wdbl(p)), v),
{
    lemma_col1(u, p);
}

/// A limb product does not depend on the order of its factors.
pub proof fn lemma_prod_comm(x: u64, y: u64)
    ensures
        prod(x, y) == prod(y, x),
{
    reveal(prod);
    assert(x as nat * y as nat == y as nat * x as nat) by (nonlinear_arith);
}

/// Squaring produces bit for bit the limbs of multiplying a value by itself,
/// for any input limbs (the 128-bit accumulators agree modulo `2^128`).
pub proof fn lemma_sqr_is_mul(a: Fp)
    ensures
        spec_modsqr(a) == spec_modmul(a, a),
{
    reveal(spec_modmul);
    reveal(spec_modsqr);
    lemma_prod_comm(a[1], a[0]);
    lemma_prod_comm(a[2], a[0]);
    lemma_prod_comm(a[3], a[0]);
    lemma_prod_comm(a[4], a[0]);
    lemma_prod_comm(a[2], a[1]);
    lemma_prod_comm(a[3], a[1]);
    lemma_prod_comm(a[4], a[1]);
    lemma_prod_comm(a[3], a[2]);
    lemma_prod_comm(a[4], a[2]);
    lemma_prod_comm(a[4], a[3]);
    let t0 = prod(a[0], a[0]);
    let u0 = t0 >> 51u128;
    let v0 = lo51(t0);
    lemma_col1(u0, prod(a[0], a[1]));
    let t1 = wadd(u0, wdbl(prod(a[0], a[1])));
    let u1 = t1 >> 51u128;
    let v1 = lo51(t1);
    lemma_col2(u1, prod(a[0], a[2]), prod(a[1], a[1]));
    let t2 = wadd(u1, wadd(wdbl(prod(a[0], a[2])), prod(a[1], a[1])));
    let u2 = t2 >> 51u128;
    let v2 = lo51(t2);
    lemma_col3(u2, prod(a[0], a[3]), prod(a[1], a[2]));
    let t3 = wadd(u2, wdbl(wadd(prod(a[0], a[3]), prod(a[1], a[2]))));
    let u3 = t3 >> 51u128;
    let v3 = lo51(t3);
    lemma_col4(u3, prod(a[0], a[4]), prod(a[1], a[3]), prod(a[2], a[2]), prod(v0, P4));
    let t4 = wadd(wadd(u3, wadd(wdbl(wadd(prod(a[0], a[4]), prod(a[1], a[3]))), prod(a[2], a[2]))), prod(v0, P4));
    let u4 = t4 >> 51u128;
    let v4 = lo51(t4);
    lemma_col5(u4, prod(a[1], a[4]), prod(a[2], a[3]), prod(v1, P4));
    let t5 = wadd(wadd(u4, wdbl(wadd(prod(a[1], a[4]), prod(a[2], a[3])))), prod(v1, P4));
    let u5 = t5 >> 51u128;
    lemma_col6(u5, prod(a[2], a[4]), prod(a[3], a[3]), prod(v2, P4));
    let t6 = wadd(wadd(u5, wadd(wdbl(prod(a[2], a[4])), prod(a[3], a[3]))), prod(v2, P4));
    let u6 = t6 >> 51u128;
    lemma_col7(u6, prod(a[3], a[4]), prod(v3, P4));
    assert(spec_modsqr(a) =~= spec_modmul(a, a));
}

/// Every low-51-bit extraction is below `2^51`.
pub proof fn lemma_lo51_all()
    ensures
        forall|t: u128| #[trigger] lo51(t) < 0x8000000000000u64,
{
    assert forall|t: u128| #[trigger] lo51(t) < 0x8000000000000u64 by {
        lemma_lo51(t);
    }
}

/// Montgomery multiplication masks limbs 0..=3 of its output, for any inputs.
pub proof fn lemma_modmul_masks(a: Fp, b: Fp)
    ensures
        spec_modmul(a, b)[0] < 0x8000000000000u64,
        spec_modmul(a, b)[1] < 0x8000000000000u64,
        spec_modmul(a, b)[2] < 0x8000000000000u64,
        spec_modmul(a, b)[3] < 0x8000000000000u64,
{
    reveal(spec_modmul);
    lemma_lo51_all();
}

/// A chain of wrapping additions is the sum modulo `2^128`.
pub proof fn lemma_chain_val(u: u128, x: u128, y: u128, z: u128, w: u128, v: u128)
    ensures
        wadd(wadd(u, x), y) as int == (u + x + y) % m128(),
        wadd(wadd(wadd(u, x), y), z) as int == (u + x + y + z) % m128(),
        wadd(wadd(wadd(wadd(u, x), y), z), w) as int == (u + x + y + z + w) % m128(),
        wadd(wadd(wadd(wadd(wadd(u, x), y), z), w), v) as int == (u + x + y + z + w + v) % m128(),
{
    lemma_wadd_mod(u, x);
    lemma_wadd_mod(wadd(u, x), y);
    lemma_wadd_mod(wadd(wadd(u, x), y), z);
    lemma_wadd_mod(wadd(wadd(wadd(u, x), y), z), w);
    lemma_wadd_mod(wadd(wadd(wadd(wadd(u, x), y), z), w), v);
    lemma_mod_add_inner(u + x, y as int);
    lemma_mod_add_inner(u + x + y, z as int);
    lemma_mod_add_inner(u + x + y + z, w as int);
    lemma_mod_add_inner(u + x + y + z + w, v as int);
}

/// Adding the same terms in reverse order gives the same accumulator.
pub proof fn lemma_chain_rev(u: u128, x: u128, y: u128, z: u128, w: u128, v: u128)
    ensures
        wadd(wadd(u, x), y) == wadd(wadd(u, y), x),
        wadd(wadd(wadd(u, x), y), z) == wadd(wadd(wadd(u, z), y), x),
        wadd(wadd(wadd(wadd(u, x), y), z), w) == wadd(wadd(wadd(wadd(u, w), z), y), x),
        wadd(wadd(wadd(wadd(wadd(u, x), y), z), w), v) == wadd(wadd(wadd(wadd(wadd(u, v), w), z), y), x),
{
    lemma_chain_val(u, x, y, z, w, v);
    lemma_chain_val(u, y, x, z, w, v);
    lemma_chain_val(u, z, y, x, w, v);
    lemma_chain_val(u, w, z, y, x, v);
    lemma_chain_val(u, v, w, z, y, x);
}

/// Montgomery multiplication is commutative bit for bit, for any limbs:
/// each column adds the same limb products in the reverse order.
pub proof fn lemma_modmul_comm(a: Fp, b: Fp)
    ensures
        spec_modmul(a, b) == spec_modmul(b, a),
{
    reveal(spec_modmul);
    lemma_prod_comm(a[0], b[0]);
    lemma_prod_comm(a[0], b[1]);
    lemma_prod_comm(a[0], b[2]);
    lemma_prod_comm(a[0], b[3]);
    lemma_prod_comm(a[0], b[4]);
    lemma_prod_comm(a[1], b[0]);
    lemma_prod_comm(a[1], b[1]);
    lemma_prod_comm(a[1], b[2]);
    lemma_prod_comm(a[1], b[3]);
    lemma_prod_comm(a[1], b[4]);
    lemma_prod_comm(a[2], b[0]);
    lemma_prod_comm(a[2], b[1]);
    lemma_prod_comm(a[2], b[2]);
    lemma_prod_comm(a[2], b[3]);
    lemma_prod_comm(a[2], b[4]);
    lemma_prod_comm(a[3], b[0]);
    lemma_prod_comm(a[3], b[1]);
    lemma_prod_comm(a[3], b[2]);
    lemma_prod_comm(a[3], b[3]);
    lemma_prod_comm(a[3], b[4]);
    lemma_prod_comm(a[4], b[0]);
    lemma_prod_comm(a[4], b[1]);
    lemma_prod_comm(a[4], b[2]);
    lemma_prod_comm(a[4], b[3]);
    lemma_prod_comm(a[4], b[4]);
    let t0 = prod(a[0], b[0]);
    let u0 = t0 >> 51u128;
    lemma_chain_rev(u0, prod(a[0], b[1]), prod(a[1], b[0]), 0, 0, 0);
    let t1 = wadd(wadd(u0, prod(a[0], b[1])), prod(a[1], b[0]));
    let u1 = t1 >> 51u128;
    lemma_chain_rev(u1, prod(a[0], b[2]), prod(a[1], b[1]), prod(a[2], b[0]), 0, 0);
    let t2 = wadd(wadd(wadd(u1, prod(a[0], b[2])), prod(a[1], b[1])), prod(a[2], b[0]));
    let u2 = t2 >> 51u128;
    lemma_chain_rev(u2, prod(a[0], b[3]), prod(a[1], b[2]), prod(a[2], b[1]), prod(a[3], b[0]), 0);
    let t3 = wadd(wadd(wadd(wadd(u2, prod(a[0], b[3])), prod(a[1], b[2])), prod(a[2], b[1])), prod(a[3], b[0]));
    let u3 = t3 >> 51u128;
    lemma_chain_rev(u3, prod(a[0], b[4]), prod(a[1], b[3]), prod(a[2], b[2]), prod(a[3], b[1]), prod(a[4], b[0]));
    let v0 = lo51(t0);
    let t4 = wadd(wadd(wadd(wadd(wadd(wadd(u3, prod(a[0], b[4])), prod(a[1], b[3])), prod(a[2], b[2])),
        prod(a[3], b[1])), prod(a[4], b[0])), prod(v0, P4));
    let u4 = t4 >> 51u128;
    lemma_chain_rev(u4, prod(a[1], b[4]), prod(a[2], b[3]), prod(a[3], b[2]), prod(a[4], b[1]), 0);
    let v1 = lo51(t1);
    let t5 = wadd(wadd(wadd(wadd(wadd(u4, prod(a[1], b[4])), prod(a[2], b[3])), prod(a[3], b[2])),
        prod(a[4], b[1])), prod(v1, P4));
    let u5 = t5 >> 51u128;
    lemma_chain_rev(u5, prod(a[2], b[4]), prod(a[3], b[3]), prod(a[4], b[2]), 0, 0);
    let v2 = lo51(t2);
    let t6 = wadd(wadd(wadd(wadd(u5, prod(a[2], b[4])), prod(a[3], b[3])), prod(a[4], b[2])), prod(v2, P4));
    let u6 = t6 >> 51u128;
    lemma_chain_rev(u6, prod(a[3], b[4]), prod(a[4], b[3]), 0, 0, 0);
    assert(spec_modmul(a, b) =~= spec_modmul(b, a));
}

} // verus!
