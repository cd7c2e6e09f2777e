//! Carry propagation and the additive operations built on it: addition,
//! subtraction, negation, and the final conditional subtraction of `p`.
use vstd::prelude::*;
use crate::Fp;
use crate::field_spec::{fp_value, fp_wf, lemma_fp_value_is_mont, lemma_mont_value_shift, lemma_mont_value_add, lemma_mont_value_sub, lemma_wf_limbs, limbs_val, modulus, w1, w2, w3, w4};

verus! {

/// `2^51 - 1`.
pub const MASK51: u64 = 0x7ffffffffffff;

/// `2 * P4`: `2p = TWO_P4 * 2^204 - 2`.
pub const TWO_P4: u64 = 0xa00000000000;

/// `P4`: `p = P4 * 2^204 - 1`.
pub const P4: u64 = 0x500000000000;

/// The value of the limbs with every limb read as a signed 64-bit integer:
/// the quantity that carry propagation preserves.
pub open spec fn sval(n: Fp) -> int {
    (n[0] as i64) as int + (n[1] as i64) * w1() + (n[2] as i64) * w2() + (n[3] as i64) * w3()
        + (n[4] as i64) * w4()
}

/// Every limb, read as signed, lies in `[-2^62, 2^62)`.
pub open spec fn limbs_signed_small(n: Fp) -> bool {
    &&& -0x4000000000000000 <= (n[0] as i64) < 0x4000000000000000
    &&& -0x4000000000000000 <= (n[1] as i64) < 0x4000000000000000
    &&& -0x4000000000000000 <= (n[2] as i64) < 0x4000000000000000
    &&& -0x4000000000000000 <= (n[3] as i64) < 0x4000000000000000
    &&& -0x4000000000000000 <= (n[4] as i64) < 0x4000000000000000
}

/// Carry propagation on any limbs: signed carries move up through limbs
/// 0..=3, which are masked to 51 bits; limb 4 absorbs the last carry
/// unmasked.  The second component is all ones iff limb 4 ends negative.
pub open spec fn spec_prop(n: Fp) -> (Fp, u64) {
    let c = (n[0] as i64) >> 51i64;
    let m0 = n[0] & 0x7ffffffffffffu64;
    let d = (c + (n[1] as i64)) as i64;
    let m1 = (d as u64) & 0x7ffffffffffffu64;
    let c = d >> 51i64;
    let d = (c + (n[2] as i64)) as i64;
    let m2 = (d as u64) & 0x7ffffffffffffu64;
    let c = d >> 51i64;
    let d = (c + (n[3] as i64)) as i64;
    let m3 = (d as u64) & 0x7ffffffffffffu64;
    let c = d >> 51i64;
    let m4 = (n[4] + (c as u64)) as u64;
    let r = (0 - ((m4 >> 1u64) >> 62u64)) as u64;
    ([m0, m1, m2, m3, m4], r)
}

/// Wrapping 64-bit addition.
pub(crate) fn add64(x: u64, y: u64) -> (r: u64)
    ensures
        r == (x + y) as u64,
{
    proof {
        crate::bits::lemma_wrapping(x, y, 0, 0);
    }
    x.wrapping_add(y)
}

/// Wrapping 64-bit subtraction.
pub(crate) fn sub64(x: u64, y: u64) -> (r: u64)
    ensures
        r == (x - y) as u64,
{
    proof {
        crate::bits::lemma_wrapping(x, y, 0, 0);
    }
    x.wrapping_sub(y)
}

/// Wrapping signed 64-bit addition.
fn addi64(x: i64, y: i64) -> (r: i64)
    ensures
        r == (x + y) as i64,
{
    proof {
        crate::bits::lemma_wrapping(0, 0, x, y);
    }
    x.wrapping_add(y)
}

/// Propagate carries through `n` in place; return all ones iff the result
/// is negative in the redundant form.
pub(crate) fn prop(n: &mut Fp) -> (r: u64)
    ensures
        (*final(n), r) == spec_prop(*old(n)),
{
    let mut carry: i64 = n[0] as i64;
    carry >>= 51;
    n[0] &= MASK51;
    carry = addi64(carry, n[1] as i64);
    n[1] = (carry as u64) & MASK51;
    carry >>= 51;
    carry = addi64(carry, n[2] as i64);
    n[2] = (carry as u64) & MASK51;
    carry >>= 51;
    carry = addi64(carry, n[3] as i64);
    n[3] = (carry as u64) & MASK51;
    carry >>= 51;
    n[4] = add64(n[4], carry as u64);
    sub64(0, (n[4] >> 1) >> 62)
}

/// One carry step: `d == (d >> 51) * 2^51 + low51(d)`, with a small carry.
pub proof fn lemma_carry_step(d: i64)
    requires
        -0x4000000000004000 <= d < 0x4000000000004000,
    ensures
        (d >> 51i64) * 0x8000000000000 + (((d as u64) & 0x7ffffffffffffu64) as int) == d as int,
        -0x1000 <= (d >> 51i64) < 0x1000,
        ((d as u64) & 0x7ffffffffffffu64) < 0x8000000000000u64,
{
    assert(((d >> 51i64) as i128) * 0x8000000000000i128 + (((d as u64) & 0x7ffffffffffffu64) as i128) == d as i128
        && (-0x4000000000004000 <= d < 0x4000000000004000 ==> -0x1000 <= (d >> 51i64) < 0x1000)
        && ((d as u64) & 0x7ffffffffffffu64) < 0x8000000000000u64) by (bit_vector);
}

/// Carry propagation preserves the signed value when no signed limb
/// overflows, masks limbs 0..=3 and reports the sign of the result.
pub proof fn lemma_prop_value(n: Fp)
    requires
        limbs_signed_small(n),
    ensures
        ({
            let (m, r) = spec_prop(n);
            &&& m[0] < 0x8000000000000u64
            &&& m[1] < 0x8000000000000u64
            &&& m[2] < 0x8000000000000u64
            &&& m[3] < 0x8000000000000u64
            &&& (n[4] as i64) - 0x1000 <= (m[4] as i64) <= (n[4] as i64) + 0x1000
            &&& sval(m) == sval(n)
            &&& r == (if (m[4] as i64) < 0 { 0xffffffffffffffffu64 } else { 0u64 })
            &&& ((m[4] as i64) < 0 <==> sval(m) < 0)
        }),
{
    let n0 = n[0];
    let x0 = n0 as i64;
    lemma_carry_step(x0);
    let c0 = x0 >> 51i64;
    let d1 = (c0 + (n[1] as i64)) as i64;
    assert(d1 == c0 + (n[1] as i64));
    lemma_carry_step(d1);
    let c1 = d1 >> 51i64;
    let d2 = (c1 + (n[2] as i64)) as i64;
    assert(d2 == c1 + (n[2] as i64));
    lemma_carry_step(d2);
    let c2 = d2 >> 51i64;
    let d3 = (c2 + (n[3] as i64)) as i64;
    assert(d3 == c2 + (n[3] as i64));
    lemma_carry_step(d3);
    let c3 = d3 >> 51i64;
    let n4 = n[4];
    let m4 = (n4 + (c3 as u64)) as u64;
    assert((x0 as u64) & 0x7ffffffffffffu64 == n0 & 0x7ffffffffffffu64
        && (-0x4000000000000000 <= (n4 as i64) < 0x4000000000000000 && -0x1000 <= c3 < 0x1000
            ==> (m4 as i64) == (n4 as i64) + c3)
        && (((0 - ((m4 >> 1u64) >> 62u64)) as u64) == if (m4 as i64) < 0 { 0xffffffffffffffffu64 } else { 0u64 }))
        by (bit_vector)
        requires x0 == n0 as i64, m4 == (n4 + (c3 as u64)) as u64;
    let (m, r) = spec_prop(n);
    assert(m[4] == m4);
    let lo: int = m[0] + m[1] * w1() + m[2] * w2() + m[3] * w3();
    assert(m[0] as i64 == m[0] as int && m[1] as i64 == m[1] as int && m[2] as i64 == m[2] as int && m[3] as i64 == m[3] as int);
    assert(0 <= lo < w4());
}

/// Carry propagation always leaves limbs 0..=3 below `2^51`.
pub proof fn lemma_prop_masks(n: Fp)
    ensures
        spec_prop(n).0[0] < 0x8000000000000u64,
        spec_prop(n).0[1] < 0x8000000000000u64,
        spec_prop(n).0[2] < 0x8000000000000u64,
        spec_prop(n).0[3] < 0x8000000000000u64,
{
    let x0 = n[0];
    crate::bits::lemma_word_bits(x0, 0);
    let c = (x0 as i64) >> 51i64;
    let d = (c + (n[1] as i64)) as i64;
    crate::bits::lemma_word_bits(d as u64, 0);
    let c = d >> 51i64;
    let d = (c + (n[2] as i64)) as i64;
    crate::bits::lemma_word_bits(d as u64, 0);
    let c = d >> 51i64;
    let d = (c + (n[3] as i64)) as i64;
    crate::bits::lemma_word_bits(d as u64, 0);
}

/// Undo a trial subtraction: if `carry` is all ones, subtract `lo` from limb 0
/// and add `hi` to limb 4 (wrapping); otherwise leave the limbs unchanged.
pub open spec fn spec_fixup(n: Fp, carry: u64, lo: u64, hi: u64) -> Fp {
    [(n[0] - (lo & carry)) as u64, n[1], n[2], n[3], (n[4] + (hi & carry)) as u64]
}

/// Propagate, add `2p` back if the value went negative, propagate again.
pub open spec fn spec_fold_2p(n: Fp) -> Fp {
    let (m, carry) = spec_prop(n);
    spec_prop(spec_fixup(m, carry, 2, TWO_P4)).0
}

/// The limbs of modular addition, for any input limbs.
#[verifier::opaque]
pub open spec fn spec_modadd(a: Fp, b: Fp) -> Fp {
    spec_fold_2p([((a[0] + b[0]) as u64 + 2) as u64, (a[1] + b[1]) as u64, (a[2] + b[2]) as u64,
        (a[3] + b[3]) as u64, ((a[4] + b[4]) as u64 - TWO_P4) as u64])
}

/// The limbs of modular subtraction, for any input limbs.
#[verifier::opaque]
pub open spec fn spec_modsub(a: Fp, b: Fp) -> Fp {
    spec_fold_2p([(a[0] - b[0]) as u64, (a[1] - b[1]) as u64, (a[2] - b[2]) as u64,
        (a[3] - b[3]) as u64, (a[4] - b[4]) as u64])
}

/// The limbs of modular negation, for any input limbs.
#[verifier::opaque]
pub open spec fn spec_modneg(b: Fp) -> Fp {
    spec_fold_2p([(0 - b[0]) as u64, (0 - b[1]) as u64, (0 - b[2]) as u64,
        (0 - b[3]) as u64, (0 - b[4]) as u64])
}

/// Modular addition into `n`, reducing below `2p` for well-formed inputs.
pub(crate) fn modadd(a: &Fp, b: &Fp, n: &mut Fp)
    ensures
        *final(n) == spec_modadd(*a, *b),
{
    n[0] = add64(a[0], b[0]);
    n[1] = add64(a[1], b[1]);
    n[2] = add64(a[2], b[2]);
    n[3] = add64(a[3], b[3]);
    n[4] = add64(a[4], b[4]);
    n[0] = add64(n[0], 2);
    n[4] = sub64(n[4], TWO_P4);
    let carry = prop(n);
    n[0] = sub64(n[0], 2 & carry);
    n[4] = add64(n[4], TWO_P4 & carry);
    let _ = prop(n);
    proof {
        reveal(spec_modadd);
        reveal(spec_modsub);
        reveal(spec_modneg);
    }
}

/// Modular subtraction into `n`, reducing below `2p` for well-formed inputs.
pub(crate) fn modsub(a: &Fp, b: &Fp, n: &mut Fp)
    ensures
        *final(n) == spec_modsub(*a, *b),
{
    n[0] = sub64(a[0], b[0]);
    n[1] = sub64(a[1], b[1]);
    n[2] = sub64(a[2], b[2]);
    n[3] = sub64(a[3], b[3]);
    n[4] = sub64(a[4], b[4]);
    let carry = prop(n);
    n[0] = sub64(n[0], 2 & carry);
    n[4] = add64(n[4], TWO_P4 & carry);
    let _ = prop(n);
    proof {
        reveal(spec_modadd);
        reveal(spec_modsub);
        reveal(spec_modneg);
    }
}

/// Modular negation into `n`, reducing below `2p` for well-formed inputs.
pub(crate) fn modneg(b: &Fp, n: &mut Fp)
    ensures
        *final(n) == spec_modneg(*b),
{
    n[0] = sub64(0, b[0]);
    n[1] = sub64(0, b[1]);
    n[2] = sub64(0, b[2]);
    n[3] = sub64(0, b[3]);
    n[4] = sub64(0, b[4]);
    let carry = prop(n);
    n[0] = sub64(n[0], 2 & carry);
    n[4] = add64(n[4], TWO_P4 & carry);
    let _ = prop(n);
    proof {
        reveal(spec_modadd);
        reveal(spec_modsub);
        reveal(spec_modneg);
    }
}

/// Masking with an all-ones or all-zero word selects or clears.
pub proof fn lemma_and_mask(x: u64)
    ensures
        x & 0xffffffffffffffffu64 == x,
        x & 0u64 == 0,
{
    crate::bits::lemma_word_bits(x, 0);
}

/// The undo step of a trial subtraction: it adds `hi * 2^204 - lo` to the
/// signed value exactly when the carry mask is all ones.
pub proof fn lemma_fixup_value(m: Fp, carry: u64, lo: u64, hi: u64)
    requires
        m[0] < 0x8000000000000u64,
        m[1] < 0x8000000000000u64,
        m[2] < 0x8000000000000u64,
        m[3] < 0x8000000000000u64,
        -0x1000000000000000 <= (m[4] as i64) < 0x1000000000000000,
        lo <= 2,
        hi <= TWO_P4,
        carry == 0xffffffffffffffffu64 || carry == 0u64,
    ensures
        limbs_signed_small(spec_fixup(m, carry, lo, hi)),
        -0x1000000000000000 <= (spec_fixup(m, carry, lo, hi)[4] as i64) < 0x2000000000000000,
        sval(spec_fixup(m, carry, lo, hi)) == sval(m)
            + (if carry == 0u64 { 0int } else { hi * w4() - lo }),
{
    lemma_and_mask(lo);
    lemma_and_mask(hi);
    let m0 = m[0];
    let m4 = m[4];
    let f = spec_fixup(m, carry, lo, hi);
    if carry == 0u64 {
        assert((m0 - 0) as u64 == m0);
        assert((m4 + 0) as u64 == m4);
        assert(f =~= m);
    } else {
        assert((m0 < 0x8000000000000u64 && lo <= 2 ==> ((m0 - lo) as u64) as i64 == m0 - lo)
            && (-0x1000000000000000 <= (m4 as i64) < 0x1000000000000000 && hi <= 0xa00000000000u64
            ==> ((m4 + hi) as u64) as i64 == (m4 as i64) + hi)) by (bit_vector);
    }
    assert(m[1] as i64 == m[1] as int && m[2] as i64 == m[2] as int && m[3] as i64 == m[3] as int);
    assert(m0 as i64 == m0 as int);
}

/// With limbs 0..=3 below `2^51` and limb 4 non-negative as a signed word,
/// the signed value is the plain value.
pub proof fn lemma_sval_is_val(c: Fp)
    requires
        c[0] < 0x8000000000000u64,
        c[1] < 0x8000000000000u64,
        c[2] < 0x8000000000000u64,
        c[3] < 0x8000000000000u64,
        (c[4] as i64) >= 0,
    ensures
        sval(c) == limbs_val(c) as int,
{
    let c4 = c[4];
    assert((c4 as i64) >= 0 ==> (c4 as i64) as int == c4 as int) by (bit_vector);
    assert(c[0] as i64 == c[0] as int && c[1] as i64 == c[1] as int && c[2] as i64 == c[2] as int
        && c[3] as i64 == c[3] as int);
}

/// `2p` in the limb layout: `TWO_P4 * 2^204 - 2`.
pub proof fn lemma_two_p()
    ensures
        TWO_P4 * w4() - 2 == 2 * modulus(),
{
}

/// Folding `2p` back into a value in `[-2p, 2p)` gives its representative in
/// `[0, 2p)`, with limbs 0..=3 below `2^51`.
pub proof fn lemma_fold_2p(n: Fp)
    requires
        limbs_signed_small(n),
        -0x800000000000000 <= (n[4] as i64) < 0x800000000000000,
        -2 * modulus() <= sval(n) < 2 * modulus(),
    ensures
        ({
            let c = spec_fold_2p(n);
            &&& c[0] < 0x8000000000000u64
            &&& c[1] < 0x8000000000000u64
            &&& c[2] < 0x8000000000000u64
            &&& c[3] < 0x8000000000000u64
            &&& limbs_val(c) == (if sval(n) < 0 { sval(n) + 2 * modulus() } else { sval(n) })
        }),
{
    lemma_prop_value(n);
    let m = spec_prop(n).0;
    let carry = spec_prop(n).1;
    assert(-0x1000000000000000 <= (m[4] as i64) < 0x1000000000000000);
    lemma_fixup_value(m, carry, 2, TWO_P4);
    let f = spec_fixup(m, carry, 2, TWO_P4);
    lemma_two_p();
    assert(sval(f) == (if sval(n) < 0 { sval(n) + 2 * modulus() } else { sval(n) }));
    lemma_prop_value(f);
    let c = spec_prop(f).0;
    assert(c == spec_fold_2p(n));
    assert(sval(c) >= 0);
    assert((c[4] as i64) >= 0);
    lemma_sval_is_val(c);
}

/// Signed reading of a limbwise sum or difference of small limbs.
pub proof fn lemma_small_signed(x: u64, y: u64)
    requires
        x < 0x10000000000000u64,
        y < 0x10000000000000u64,
    ensures
        ((x + y) as u64) as i64 == x + y,
        ((x - y) as u64) as i64 == x - y,
        ((x as int + y as int + 2) as u64) as i64 == x + y + 2,
        (((x + y) as u64 - TWO_P4) as u64) as i64 == x + y - TWO_P4,
{
    assert(x < 0x10000000000000u64 && y < 0x10000000000000u64 ==> ((x + y) as u64) as i64 == x + y
        && ((x - y) as u64) as i64 == x - y
        && ((x + y + 2) as u64) as i64 == x + y + 2
        && (((x + y) as u64 - 0xa00000000000u64) as u64) as i64 == x + y - 0xa00000000000u64) by (bit_vector);
}

/// Carry propagation always masks limbs 0..=3, so the additive operations
/// leave them below `2^51` whatever their inputs.
pub proof fn lemma_fold_masks(n: Fp)
    ensures
        spec_fold_2p(n)[0] < 0x8000000000000u64,
        spec_fold_2p(n)[1] < 0x8000000000000u64,
        spec_fold_2p(n)[2] < 0x8000000000000u64,
        spec_fold_2p(n)[3] < 0x8000000000000u64,
{
    let (m, carry) = spec_prop(n);
    lemma_prop_masks(spec_fixup(m, carry, 2, TWO_P4));
}

/// Modular addition of well-formed elements: the result is well formed,
/// its integer is `A + B` or `A + B - 2p`, and its field value is the sum.
pub proof fn lemma_modadd_value(a: Fp, b: Fp)
    requires
        fp_wf(a),
        fp_wf(b),
    ensures
        fp_wf(spec_modadd(a, b)),
        fp_value(spec_modadd(a, b)) == (fp_value(a) + fp_value(b)) % modulus(),
{
    reveal(spec_modadd);
    lemma_wf_limbs(a);
    lemma_wf_limbs(b);
    let n: Fp = [((a[0] + b[0]) as u64 + 2) as u64, (a[1] + b[1]) as u64, (a[2] + b[2]) as u64,
        (a[3] + b[3]) as u64, ((a[4] + b[4]) as u64 - TWO_P4) as u64];
    lemma_small_signed(a[0], b[0]);
    lemma_small_signed(a[1], b[1]);
    lemma_small_signed(a[2], b[2]);
    lemma_small_signed(a[3], b[3]);
    lemma_small_signed(a[4], b[4]);
    assert((n[0] as i64) == a[0] + b[0] + 2);
    assert(sval(n) == limbs_val(a) + limbs_val(b) + 2 - TWO_P4 * w4());
    lemma_two_p();
    lemma_fold_2p(n);
    let c = spec_modadd(a, b);
    let k: int = if sval(n) < 0 { 0 } else { -2 };
    assert(limbs_val(c) as int == (limbs_val(a) + limbs_val(b)) + k * modulus());
    lemma_fp_value_is_mont(a);
    lemma_fp_value_is_mont(b);
    lemma_fp_value_is_mont(c);
    lemma_mont_value_shift(limbs_val(a) + limbs_val(b) as int, k);
    lemma_mont_value_add(limbs_val(a) as int, limbs_val(b) as int);
}

/// Modular subtraction of well-formed elements: the result is well formed
/// and its field value is the difference.
pub proof fn lemma_modsub_value(a: Fp, b: Fp)
    requires
        fp_wf(a),
        fp_wf(b),
    ensures
        fp_wf(spec_modsub(a, b)),
        fp_value(spec_modsub(a, b)) as int == (fp_value(a) - fp_value(b)) % (modulus() as int),
{
    reveal(spec_modsub);
    lemma_wf_limbs(a);
    lemma_wf_limbs(b);
    let n: Fp = [(a[0] - b[0]) as u64, (a[1] - b[1]) as u64, (a[2] - b[2]) as u64,
        (a[3] - b[3]) as u64, (a[4] - b[4]) as u64];
    lemma_small_signed(a[0], b[0]);
    lemma_small_signed(a[1], b[1]);
    lemma_small_signed(a[2], b[2]);
    lemma_small_signed(a[3], b[3]);
    lemma_small_signed(a[4], b[4]);
    assert(sval(n) == limbs_val(a) - limbs_val(b));
    lemma_fold_2p(n);
    let c = spec_modsub(a, b);
    let k: int = if sval(n) < 0 { 2 } else { 0 };
    assert(limbs_val(c) as int == (limbs_val(a) - limbs_val(b)) + k * modulus());
    lemma_fp_value_is_mont(a);
    lemma_fp_value_is_mont(b);
    lemma_fp_value_is_mont(c);
    lemma_mont_value_shift(limbs_val(a) - limbs_val(b), k);
    lemma_mont_value_sub(limbs_val(a) as int, limbs_val(b) as int);
}

/// Modular negation of a well-formed element: the result is well formed and
/// its field value is the negation.
pub proof fn lemma_modneg_value(b: Fp)
    requires
        fp_wf(b),
    ensures
        fp_wf(spec_modneg(b)),
        fp_value(spec_modneg(b)) as int == (0 - fp_value(b)) % (modulus() as int),
{
    reveal(spec_modneg);
    reveal(spec_modsub);
    let z: Fp = [0u64, 0u64, 0u64, 0u64, 0u64];
    assert(limbs_val(z) == 0);
    assert(spec_modneg(b) == spec_modsub(z, b));
    lemma_modsub_value(z, b);
    lemma_fp_value_is_mont(z);
    assert(fp_value(z) == 0);
}

/// Addition, subtraction and negation leave limbs 0..=3 below `2^51`, for
/// any inputs.
pub proof fn lemma_additive_masks(a: Fp, b: Fp)
    ensures
        spec_modadd(a, b)[0] < 0x8000000000000u64 && spec_modadd(a, b)[1] < 0x8000000000000u64
            && spec_modadd(a, b)[2] < 0x8000000000000u64 && spec_modadd(a, b)[3] < 0x8000000000000u64,
        spec_modsub(a, b)[0] < 0x8000000000000u64 && spec_modsub(a, b)[1] < 0x8000000000000u64
            && spec_modsub(a, b)[2] < 0x8000000000000u64 && spec_modsub(a, b)[3] < 0x8000000000000u64,
        spec_modneg(b)[0] < 0x8000000000000u64 && spec_modneg(b)[1] < 0x8000000000000u64
            && spec_modneg(b)[2] < 0x8000000000000u64 && spec_modneg(b)[3] < 0x8000000000000u64,
{
    reveal(spec_modadd);
    reveal(spec_modsub);
    reveal(spec_modneg);
    lemma_fold_masks([((a[0] + b[0]) as u64 + 2) as u64, (a[1] + b[1]) as u64, (a[2] + b[2]) as u64,
        (a[3] + b[3]) as u64, ((a[4] + b[4]) as u64 - TWO_P4) as u64]);
    lemma_fold_masks([(a[0] - b[0]) as u64, (a[1] - b[1]) as u64, (a[2] - b[2]) as u64,
        (a[3] - b[3]) as u64, (a[4] - b[4]) as u64]);
    lemma_fold_masks([(0 - b[0]) as u64, (0 - b[1]) as u64, (0 - b[2]) as u64,
        (0 - b[3]) as u64, (0 - b[4]) as u64]);
}

} // verus!
