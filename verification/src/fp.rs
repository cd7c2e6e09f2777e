//! The GF(p) operations.
//!
//! Every operation states the exact limbs it writes, for any input limbs,
//! and, for well-formed inputs (`fp_wf`), the field element those limbs
//! stand for (`fp_value`).
use vstd::prelude::*;
use crate::{Fp, NWORDS_FIELD};
use crate::canon::{modcmp, modis0};
use crate::constants::{lemma_constants, MONTGOMERY_ONE, NRES_C, THREE_INV, TWO_INV};
use crate::field_spec::{fp_value, fp_wf, limbs_below, limbs_val, modulus, mont_r, mont_r_inv, mul_fits};
use crate::mont::{lo51, prod, wadd, P4, lemma_modmul_fp_value, lemma_modmul_masks, lemma_wf_mul_fits, modmul, modsqr, spec_modmul, spec_modsqr};
use crate::reduce::{lemma_modadd_value, lemma_modneg_value, lemma_modsub_value, modadd, modneg, modsub, spec_modadd, spec_modneg, spec_modsub};

verus! {

/// Limbs 0..=3 are below `2^51` (limb 4 is not constrained).
pub open spec fn low_limbs_masked(a: Fp) -> bool {
    &&& a[0] < 0x8000000000000u64
    &&& a[1] < 0x8000000000000u64
    &&& a[2] < 0x8000000000000u64
    &&& a[3] < 0x8000000000000u64
}

/// `out = a + b`, reduced below `2p`.
pub fn fp_add(out: &mut Fp, a: &Fp, b: &Fp)
    ensures
        *final(out) == spec_modadd(*a, *b),
        low_limbs_masked(*final(out)),
        fp_wf(*a) && fp_wf(*b) ==> fp_wf(*final(out))
            && fp_value(*final(out)) == (fp_value(*a) + fp_value(*b)) % modulus(),
{
    modadd(a, b, out);
    proof {
        crate::reduce::lemma_additive_masks(*a, *b);
        if fp_wf(*a) && fp_wf(*b) {
            lemma_modadd_value(*a, *b);
        }
    }
}

/// `out = a - b`, reduced below `2p`.
pub fn fp_sub(out: &mut Fp, a: &Fp, b: &Fp)
    ensures
        *final(out) == spec_modsub(*a, *b),
        low_limbs_masked(*final(out)),
        fp_wf(*a) && fp_wf(*b) ==> fp_wf(*final(out))
            && fp_value(*final(out)) as int == (fp_value(*a) - fp_value(*b)) % (modulus() as int),
{
    modsub(a, b, out);
    proof {
        crate::reduce::lemma_additive_masks(*a, *b);
        if fp_wf(*a) && fp_wf(*b) {
            lemma_modsub_value(*a, *b);
        }
    }
}

/// `out = -a`, reduced below `2p`.
pub fn fp_neg(out: &mut Fp, a: &Fp)
    ensures
        *final(out) == spec_modneg(*a),
        low_limbs_masked(*final(out)),
        fp_wf(*a) ==> fp_wf(*final(out))
            && fp_value(*final(out)) as int == (0 - fp_value(*a)) % (modulus() as int),
{
    modneg(a, out);
    proof {
        crate::reduce::lemma_additive_masks(*a, *a);
        if fp_wf(*a) {
            lemma_modneg_value(*a);
        }
    }
}

/// `out = a`, limb for limb.
pub fn fp_copy(out: &mut Fp, a: &Fp)
    ensures
        *final(out) == *a,
{
    *out = *a;
}

/// `out = 0`: all five limbs zero.
pub fn fp_set_zero(out: &mut Fp)
    ensures
        *final(out) == [0u64; NWORDS_FIELD],
        fp_wf(*final(out)),
        fp_value(*final(out)) == 0,
{
    *out = [0u64; NWORDS_FIELD];
    proof {
        assert(limbs_val(*out) == 0);
    }
}

/// `out = 1`: the Montgomery limbs of one.
pub fn fp_set_one(out: &mut Fp)
    ensures
        *final(out) == MONTGOMERY_ONE,
        fp_wf(*final(out)),
        fp_value(*final(out)) == 1,
{
    *out = MONTGOMERY_ONE;
    proof {
        lemma_constants();
    }
}

/// `out = a * b`: Montgomery multiplication, reduced below `2p`.
pub fn fp_mul(out: &mut Fp, a: &Fp, b: &Fp)
    ensures
        *final(out) == spec_modmul(*a, *b),
        low_limbs_masked(*final(out)),
        fp_wf(*a) && fp_wf(*b) ==> fp_wf(*final(out))
            && fp_value(*final(out)) == (fp_value(*a) * fp_value(*b)) % modulus(),
{
    *out = modmul(a, b);
    proof {
        lemma_modmul_masks(*a, *b);
        if fp_wf(*a) && fp_wf(*b) {
            lemma_wf_mul_fits(*a, *b);
            lemma_modmul_fp_value(*a, *b);
        }
    }
}

/// `out = a^2`: Montgomery squaring, the same limbs as `fp_mul(a, a)`.
pub fn fp_sqr(out: &mut Fp, a: &Fp)
    ensures
        *final(out) == spec_modsqr(*a),
        *final(out) == spec_modmul(*a, *a),
        low_limbs_masked(*final(out)),
        fp_wf(*a) ==> fp_wf(*final(out))
            && fp_value(*final(out)) == (fp_value(*a) * fp_value(*a)) % modulus(),
{
    *out = modsqr(a);
    proof {
        lemma_modmul_masks(*a, *a);
        if fp_wf(*a) {
            lemma_wf_mul_fits(*a, *a);
            lemma_modmul_fp_value(*a, *a);
        }
    }
}

/// Multiplying by a field element `h` with `k * h == 1`: `k` times the
/// product is the other factor.
pub proof fn lemma_times_inverse(x: nat, h: nat, k: nat)
    requires
        x < modulus(),
        (k * h) % modulus() == 1,
    ensures
        (k * ((x * h) % modulus())) % modulus() == x,
{
    let m = modulus() as int;
    vstd::arithmetic::div_mod::lemma_mul_mod_noop_right(k as int, (x * h) as int, m);
    assert(k * (x * h) == x * (k * h)) by (nonlinear_arith);
    vstd::arithmetic::div_mod::lemma_mul_mod_noop_right(x as int, (k * h) as int, m);
    vstd::arithmetic::div_mod::lemma_small_mod(x, modulus());
}

/// `out = a / 2`, reduced below `2p`.
pub fn fp_half(out: &mut Fp, a: &Fp)
    ensures
        *final(out) == spec_modmul(TWO_INV, *a),
        low_limbs_masked(*final(out)),
        fp_wf(*a) ==> fp_wf(*final(out))
            && fp_value(*final(out)) == (fp_value(TWO_INV) * fp_value(*a)) % modulus()
            && (2 * fp_value(*final(out))) % modulus() == fp_value(*a),
{
    *out = modmul(&TWO_INV, a);
    proof {
        lemma_constants();
        lemma_modmul_masks(TWO_INV, *a);
        if fp_wf(*a) {
            lemma_wf_mul_fits(TWO_INV, *a);
            lemma_modmul_fp_value(TWO_INV, *a);
            assert(fp_value(TWO_INV) * fp_value(*a) == fp_value(*a) * fp_value(TWO_INV)) by (nonlinear_arith);
            lemma_times_inverse(fp_value(*a), fp_value(TWO_INV), 2);
        }
    }
}

/// `out = a / 3`, reduced below `2p`.
pub fn fp_div3(out: &mut Fp, a: &Fp)
    ensures
        *final(out) == spec_modmul(THREE_INV, *a),
        low_limbs_masked(*final(out)),
        fp_wf(*a) ==> fp_wf(*final(out))
            && fp_value(*final(out)) == (fp_value(THREE_INV) * fp_value(*a)) % modulus()
            && (3 * fp_value(*final(out))) % modulus() == fp_value(*a),
{
    *out = modmul(&THREE_INV, a);
    proof {
        lemma_constants();
        lemma_modmul_masks(THREE_INV, *a);
        if fp_wf(*a) {
            lemma_wf_mul_fits(THREE_INV, *a);
            lemma_modmul_fp_value(THREE_INV, *a);
            assert(fp_value(THREE_INV) * fp_value(*a) == fp_value(*a) * fp_value(THREE_INV)) by (nonlinear_arith);
            lemma_times_inverse(fp_value(*a), fp_value(THREE_INV), 3);
        }
    }
}

/// The mask `fp_is_zero` returns: all ones when `a` stands for zero.
pub open spec fn zero_mask(a: Fp) -> u32 {
    if fp_value(a) == 0 { 0xffffffffu32 } else { 0u32 }
}

/// The mask `fp_is_equal` returns: all ones when `a` and `b` stand for the
/// same element.
pub open spec fn equal_mask(a: Fp, b: Fp) -> u32 {
    if fp_value(a) == fp_value(b) { 0xffffffffu32 } else { 0u32 }
}

/// The all-ones mask when `a` is the field zero, else `0`; any limbs.
pub fn fp_is_zero(a: &Fp) -> (r: u32)
    ensures
        r == zero_mask(*a),
{
    0u32.wrapping_sub(modis0(a))
}

/// The all-ones mask when `a` and `b` are the same field element, else `0`;
/// any limbs.
pub fn fp_is_equal(a: &Fp, b: &Fp) -> (r: u32)
    ensures
        r == equal_mask(*a, *b),
{
    0u32.wrapping_sub(modcmp(a, b))
}

/// The integer `x` sign-extended to 64 bits and read as unsigned: `x` when
/// `x >= 0`, `2^64 + x` when `x < 0`.
pub open spec fn sign_extended(x: i32) -> nat {
    ((x as i64) as u64) as nat
}

/// The limbs of the integer `x` as `modint` reads it: sign-extended to 64
/// bits in limb 0.
pub open spec fn small_limbs(x: i32) -> Fp {
    [(x as i64) as u64, 0u64, 0u64, 0u64, 0u64]
}

/// The Montgomery limbs `modint` writes for `x`.
pub open spec fn spec_modint(x: i32) -> Fp {
    spec_modmul(small_limbs(x), NRES_C)
}

/// Taking limbs into the Montgomery domain: if `c == x * R^2 * R^-1
/// (mod p)`, then `c` stands for `x mod p`.
pub proof fn lemma_nres_value(c: int, x: int)
    requires
        c % (modulus() as int) == (x * limbs_val(NRES_C) * mont_r_inv()) % (modulus() as int),
    ensures
        (c * mont_r_inv()) % (modulus() as int) == x % (modulus() as int),
{
    let m = modulus() as int;
    let ri = mont_r_inv() as int;
    let n = limbs_val(NRES_C) as int;
    lemma_constants();
    assert((n * ri * ri) % m == 1);
    vstd::arithmetic::div_mod::lemma_mul_mod_noop_left(c, ri, m);
    vstd::arithmetic::div_mod::lemma_mul_mod_noop_left(x * n * ri, ri, m);
    assert(x * n * ri * ri == x * (n * ri * ri)) by (nonlinear_arith);
    vstd::arithmetic::div_mod::lemma_mul_mod_noop_right(x, n * ri * ri, m);
}

/// `n` = the Montgomery limbs of the positional integer in `m`: for any
/// limbs, exactly `spec_modmul(m, NRES_C)`; for an integer below `R`, a
/// well-formed element standing for that integer modulo `p`.
pub fn nres(m: &Fp, n: &mut Fp)
    ensures
        *final(n) == spec_modmul(*m, NRES_C),
        low_limbs_masked(*final(n)),
        limbs_val(*m) < mont_r() ==> fp_wf(*final(n)) && fp_value(*final(n)) == limbs_val(*m) % modulus(),
{
    *n = modmul(m, &NRES_C);
    proof {
        lemma_constants();
        lemma_modmul_masks(*m, NRES_C);
        if limbs_val(*m) < mont_r() {
            assert(limbs_below(NRES_C, 0x400000000000000));
            assert(mul_fits(*m, NRES_C));
            vstd::arithmetic::mul::lemma_mul_upper_bound(limbs_val(*m) as int, mont_r() - 1,
                limbs_val(NRES_C) as int, modulus() as int);
            assert((mont_r() - 1) * modulus() < mont_r() * modulus());
            lemma_modmul_fp_value(*m, NRES_C);
            lemma_nres_value(limbs_val(*n) as int, limbs_val(*m) as int);
        }
    }
}

/// `a` = the Montgomery limbs of the integer `x`, sign-extended to 64 bits.
pub(crate) fn modint(x: i32, a: &mut Fp)
    ensures
        *final(a) == spec_modint(x),
        fp_wf(*final(a)),
        fp_value(*final(a)) == sign_extended(x) % modulus(),
{
    a[0] = x as i64 as u64;
    a[1] = 0;
    a[2] = 0;
    a[3] = 0;
    a[4] = 0;
    let mut tmp: Fp = [0u64; NWORDS_FIELD];
    proof {
        assert(*a =~= small_limbs(x));
        assert(limbs_val(*a) == (x as i64) as u64);
        assert(limbs_val(*a) < mont_r());
    }
    nres(a, &mut tmp);
    *a = tmp;
}

/// `out` = the Montgomery limbs of `val` read as a signed 32-bit integer and
/// sign-extended to 64 bits: the bits of `val` above 32 are ignored.
pub fn fp_set_small(out: &mut Fp, val: u64)
    ensures
        *final(out) == spec_modint(val as i32),
        fp_wf(*final(out)),
        fp_value(*final(out)) == sign_extended(val as i32) % modulus(),
{
    modint(val as i32, out);
}

/// `c = a * b` for the integer `b`, sign-extended to 64 bits.
pub(crate) fn modmli(a: &Fp, b: i32, c: &mut Fp)
    ensures
        *final(c) == spec_modmul(*a, spec_modint(b)),
        low_limbs_masked(*final(c)),
        fp_wf(*a) ==> fp_wf(*final(c))
            && fp_value(*final(c)) == (fp_value(*a) * (sign_extended(b) % modulus())) % modulus(),
{
    let mut t: Fp = [0u64; NWORDS_FIELD];
    modint(b, &mut t);
    *c = modmul(a, &t);
    proof {
        lemma_modmul_masks(*a, t);
        if fp_wf(*a) {
            lemma_wf_mul_fits(*a, t);
            lemma_modmul_fp_value(*a, t);
        }
    }
}

/// `out = a * val`, with `val` read as a signed 32-bit integer and
/// sign-extended to 64 bits.
pub fn fp_mul_small(out: &mut Fp, a: &Fp, val: u32)
    ensures
        *final(out) == spec_modmul(*a, spec_modint(val as i32)),
        low_limbs_masked(*final(out)),
        fp_wf(*a) ==> fp_wf(*final(out))
            && fp_value(*final(out)) == (fp_value(*a) * (sign_extended(val as i32) % modulus())) % modulus(),
{
    modmli(a, val as i32, out);
}

/// Taking the integer one into the Montgomery domain gives exactly the
/// limbs of `MONTGOMERY_ONE`.
pub proof fn lemma_modint_one()
    ensures
        spec_modint(1) == MONTGOMERY_ONE,
{
    reveal(crate::mont::spec_modmul);
    reveal(crate::mont::prod);
    reveal(crate::mont::wadd);
    reveal(crate::mont::lo51);
    let a = small_limbs(1);
    assert(a == [1u64, 0u64, 0u64, 0u64, 0u64]);
    crate::bits::lemma_u128_bits(0x4cccccccccf5cu128);
    crate::bits::lemma_u128_bits(0x1999999999999u128);
    crate::bits::lemma_u128_bits(0x3333333333333u128);
    crate::bits::lemma_u128_bits(0x6666666666666u128);
    crate::bits::lemma_u128_bits(0x18000000000ccccccccccccccu128);
    crate::bits::lemma_u128_bits(0x800000000000000000000019u128);
    crate::bits::lemma_u128_bits(0x1000000000000000000000000u128);
    crate::bits::lemma_u128_bits(0x2000000000000000000000000u128);
    crate::bits::lemma_u128_bits(0x1800000000000000000000000u128);
    crate::bits::lemma_u128_bits(0u128);
    let b = NRES_C;
    let t = prod(a[0], b[0]);
    assert(t == 0x4cccccccccf5cu128);
    let v0 = lo51(t);
    assert(v0 == 0x4cccccccccf5cu64);
    let t = t >> 51u128;
    assert(t == 0);
    let t = wadd(wadd(t, prod(a[0], b[1])), prod(a[1], b[0]));
    assert(t == 0x1999999999999u128);
    let v1 = lo51(t);
    let t = t >> 51u128;
    assert(t == 0);
    let t = wadd(wadd(wadd(t, prod(a[0], b[2])), prod(a[1], b[1])), prod(a[2], b[0]));
    assert(t == 0x3333333333333u128);
    let v2 = lo51(t);
    let t = t >> 51u128;
    let t = wadd(wadd(wadd(wadd(t, prod(a[0], b[3])), prod(a[1], b[2])), prod(a[2], b[1])), prod(a[3], b[0]));
    assert(t == 0x6666666666666u128);
    let v3 = lo51(t);
    let t = t >> 51u128;
    let t = wadd(wadd(wadd(wadd(wadd(wadd(t, prod(a[0], b[4])), prod(a[1], b[3])), prod(a[2], b[2])), prod(a[3], b[1])), prod(a[4], b[0])), prod(v0, P4));
    assert(t == 0x18000000000ccccccccccccccu128);
    let v4 = lo51(t);
    assert(v4 == 0x4ccccccccccccu64);
    let t = t >> 51u128;
    let t = wadd(wadd(wadd(wadd(wadd(t, prod(a[1], b[4])), prod(a[2], b[3])), prod(a[3], b[2])), prod(a[4], b[1])), prod(v1, P4));
    assert(t == 0x800000000000000000000019u128);
    let c0 = lo51(t);
    let t = t >> 51u128;
    let t = wadd(wadd(wadd(wadd(t, prod(a[2], b[4])), prod(a[3], b[3])), prod(a[4], b[2])), prod(v2, P4));
    assert(t == 0x1000000000000000000000000u128);
    let c1 = lo51(t);
    let t = t >> 51u128;
    let t = wadd(wadd(wadd(t, prod(a[3], b[4])), prod(a[4], b[3])), prod(v3, P4));
    assert(t == 0x2000000000000000000000000u128);
    let c2 = lo51(t);
    let t = t >> 51u128;
    let t = wadd(wadd(t, prod(a[4], b[4])), prod(v4, P4));
    assert(t == 0x1800000000000000000000000u128);
    let c3 = lo51(t);
    let t = t >> 51u128;
    assert(t == 0x300000000000u128);
    assert(spec_modint(1) =~= MONTGOMERY_ONE);
}

/// Taking the integer zero into the Montgomery domain gives zero limbs,
/// and multiplying any limbs by zero limbs gives zero limbs.
pub proof fn lemma_modint_zero(a: Fp)
    ensures
        spec_modint(0) == [0u64; NWORDS_FIELD],
        spec_modmul(a, [0u64; NWORDS_FIELD]) == [0u64; NWORDS_FIELD],
{
    reveal(crate::mont::spec_modmul);
    reveal(crate::mont::prod);
    reveal(crate::mont::wadd);
    reveal(crate::mont::lo51);
    crate::bits::lemma_u128_bits(0u128);
    let z = small_limbs(0);
    assert(z == [0u64; NWORDS_FIELD]);
    assert(spec_modint(0) =~= [0u64; NWORDS_FIELD]);
    assert(spec_modmul(a, [0u64; NWORDS_FIELD]) =~= [0u64; NWORDS_FIELD]);
}

} // verus!
