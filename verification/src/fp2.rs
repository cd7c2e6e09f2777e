//! Arithmetic in GF(p^2) = GF(p)[i] / (i^2 + 1).
//!
//! An element is a pair of GF(p) elements `re + im * i`.  Componentwise
//! operations state the exact limbs of each half; the others state, for
//! well-formed halves, the field values of the result.
use vstd::prelude::*;
use crate::{Fp, NWORDS_FIELD};
use crate::constants::{lemma_constants, MONTGOMERY_ONE, TWO_INV};
use crate::field_spec::{fp_value, fp_wf, modulus};
use crate::fp::{fp_add, fp_copy, fp_half, fp_is_equal, fp_is_zero, fp_mul, fp_mul_small, fp_neg, fp_set_one, fp_set_small, fp_set_zero, fp_sqr, fp_sub, sign_extended, spec_modint, zero_mask};
use crate::mont::{spec_modmul, spec_modsqr};
use crate::reduce::{spec_modadd, spec_modneg, spec_modsub};
use crate::select::{fp_cswap, fp_select, spec_select};
use crate::ext_spec::{all_reduced, f2mul, f2pow, f2prod, fmod, lemma_mod_ops};
use crate::fermat::is_f2_square;
use vstd::arithmetic::power2::pow2;
use crate::codec::{byte_of, fp_decode, fp_encode, le_val, limbs_of};
use crate::constants::NRES_C;
use crate::exp::{exp_3div4, exp_euler, exp_inv, exp_sqrt, fp_exp3div4, fp_inv, fp_is_square, fp_sqrt, fpow, spec_euler, spec_modinv, spec_modpro, spec_modsqrt};

verus! {

/// Size in bytes of an encoded GF(p^2) element.
pub const FP2_ENCODED_BYTES: usize = 64;

/// An element `re + im * i` of GF(p^2).
#[derive(Clone, Copy, Debug, Eq)]
pub struct Fp2 {
    pub re: Fp,
    pub im: Fp,
}

impl PartialEq for Fp2 {
    /// Limb-for-limb equality of both halves (not equality in the field:
    /// see `fp2_is_equal`).
    fn eq(&self, other: &Self) -> (r: bool) {
        self.re[0] == other.re[0] && self.re[1] == other.re[1] && self.re[2] == other.re[2]
            && self.re[3] == other.re[3] && self.re[4] == other.re[4] && self.im[0] == other.im[0]
            && self.im[1] == other.im[1] && self.im[2] == other.im[2] && self.im[3] == other.im[3]
            && self.im[4] == other.im[4]
    }
}

impl vstd::std_specs::cmp::PartialEqSpecImpl for Fp2 {
    open spec fn obeys_eq_spec() -> bool {
        true
    }

    open spec fn eq_spec(&self, other: &Self) -> bool {
        &&& self.re[0] == other.re[0] && self.re[1] == other.re[1] && self.re[2] == other.re[2]
        &&& self.re[3] == other.re[3] && self.re[4] == other.re[4]
        &&& self.im[0] == other.im[0] && self.im[1] == other.im[1] && self.im[2] == other.im[2]
        &&& self.im[3] == other.im[3] && self.im[4] == other.im[4]
    }
}

/// Another name for [`Fp2`].
pub type Fp2t = Fp2;

/// Both halves are well formed.
pub open spec fn fp2_wf(a: Fp2) -> bool {
    fp_wf(a.re) && fp_wf(a.im)
}

/// The GF(p^2) element the halves stand for.
pub open spec fn fp2_value(a: Fp2) -> (nat, nat) {
    (fp_value(a.re), fp_value(a.im))
}

/// `re + im * i := val` (read as a signed 32-bit integer, sign-extended);
/// the imaginary half is zero.
pub fn fp2_set_small(x: &mut Fp2, val: u64)
    ensures
        final(x).re == spec_modint(val as i32),
        final(x).im == [0u64; NWORDS_FIELD],
        fp2_wf(*final(x)),
        fp_value(final(x).re) == sign_extended(val as i32) % modulus(),
        fp_value(final(x).im) == 0,
{
    fp_set_small(&mut x.re, val);
    fp_set_zero(&mut x.im);
}

/// `x = y * n`, both halves multiplied by `n` (read as a signed 32-bit
/// integer, sign-extended).
pub fn fp2_mul_small(x: &mut Fp2, y: &Fp2, n: u32)
    ensures
        final(x).re == spec_modmul(y.re, spec_modint(n as i32)),
        final(x).im == spec_modmul(y.im, spec_modint(n as i32)),
        fp2_wf(*y) ==> fp2_wf(*final(x))
            && fp_value(final(x).re) == (fp_value(y.re) * (sign_extended(n as i32) % modulus())) % modulus()
            && fp_value(final(x).im) == (fp_value(y.im) * (sign_extended(n as i32) % modulus())) % modulus(),
{
    fp_mul_small(&mut x.re, &y.re, n);
    fp_mul_small(&mut x.im, &y.im, n);
}

/// `x = 1`.
pub fn fp2_set_one(x: &mut Fp2)
    ensures
        final(x).re == MONTGOMERY_ONE,
        final(x).im == [0u64; NWORDS_FIELD],
        fp2_wf(*final(x)),
        fp_value(final(x).re) == 1,
        fp_value(final(x).im) == 0,
{
    fp_set_one(&mut x.re);
    fp_set_zero(&mut x.im);
}

/// `x = 0`.
pub fn fp2_set_zero(x: &mut Fp2)
    ensures
        final(x).re == [0u64; NWORDS_FIELD],
        final(x).im == [0u64; NWORDS_FIELD],
        fp2_wf(*final(x)),
        fp_value(final(x).re) == 0,
        fp_value(final(x).im) == 0,
{
    fp_set_zero(&mut x.re);
    fp_set_zero(&mut x.im);
}

/// The all-ones mask when both halves are zero, else `0`; any limbs.
pub fn fp2_is_zero(a: &Fp2) -> (r: u32)
    ensures
        r == (if fp_value(a.re) == 0 && fp_value(a.im) == 0 { 0xffffffffu32 } else { 0u32 }),
{
    let x = fp_is_zero(&a.re);
    let y = fp_is_zero(&a.im);
    proof {
        lemma_mask_and(x, y);
    }
    x & y
}

/// The all-ones mask when both halves are equal in the field, else `0`;
/// any limbs.
pub fn fp2_is_equal(a: &Fp2, b: &Fp2) -> (r: u32)
    ensures
        r == (if fp_value(a.re) == fp_value(b.re) && fp_value(a.im) == fp_value(b.im) { 0xffffffffu32 } else { 0u32 }),
{
    let x = fp_is_equal(&a.re, &b.re);
    let y = fp_is_equal(&a.im, &b.im);
    proof {
        lemma_mask_and(x, y);
    }
    x & y
}

/// The all-ones mask when `a` is one, else `0`; any limbs.
pub fn fp2_is_one(a: &Fp2) -> (r: u32)
    ensures
        r == (if fp_value(a.re) == 1 && fp_value(a.im) == 0 { 0xffffffffu32 } else { 0u32 }),
{
    proof {
        lemma_constants();
    }
    let x = fp_is_equal(&a.re, &MONTGOMERY_ONE);
    let y = fp_is_zero(&a.im);
    proof {
        lemma_mask_and(x, y);
    }
    x & y
}

/// The AND of two masks is the mask of the conjunction.
pub proof fn lemma_mask_and(x: u32, y: u32)
    requires
        x == 0 || x == 0xffffffffu32,
        y == 0 || y == 0xffffffffu32,
    ensures
        x & y == (if x == 0xffffffffu32 && y == 0xffffffffu32 { 0xffffffffu32 } else { 0u32 }),
        x | y == (if x == 0xffffffffu32 || y == 0xffffffffu32 { 0xffffffffu32 } else { 0u32 }),
{
    crate::bits::lemma_u32_bits(x, y);
}

/// `x = y`, limb for limb.
pub fn fp2_copy(x: &mut Fp2, y: &Fp2)
    ensures
        *final(x) == *y,
{
    fp_copy(&mut x.re, &y.re);
    fp_copy(&mut x.im, &y.im);
}

/// `x = y + z`, half by half.
pub fn fp2_add(x: &mut Fp2, y: &Fp2, z: &Fp2)
    ensures
        final(x).re == spec_modadd(y.re, z.re),
        final(x).im == spec_modadd(y.im, z.im),
        fp2_wf(*y) && fp2_wf(*z) ==> fp2_wf(*final(x))
            && fp_value(final(x).re) == (fp_value(y.re) + fp_value(z.re)) % modulus()
            && fp_value(final(x).im) == (fp_value(y.im) + fp_value(z.im)) % modulus(),
{
    fp_add(&mut x.re, &y.re, &z.re);
    fp_add(&mut x.im, &y.im, &z.im);
}

/// `x = y + 1`: one added to the real half, the imaginary half copied.
pub fn fp2_add_one(x: &mut Fp2, y: &Fp2)
    ensures
        final(x).re == spec_modadd(y.re, MONTGOMERY_ONE),
        final(x).im == y.im,
        fp2_wf(*y) ==> fp2_wf(*final(x)) && fp_value(final(x).re) == (fp_value(y.re) + 1) % modulus(),
{
    proof {
        lemma_constants();
    }
    fp_add(&mut x.re, &y.re, &MONTGOMERY_ONE);
    fp_copy(&mut x.im, &y.im);
}

/// `x = y - z`, half by half.
pub fn fp2_sub(x: &mut Fp2, y: &Fp2, z: &Fp2)
    ensures
        final(x).re == spec_modsub(y.re, z.re),
        final(x).im == spec_modsub(y.im, z.im),
        fp2_wf(*y) && fp2_wf(*z) ==> fp2_wf(*final(x))
            && fp_value(final(x).re) == fmod(fp_value(y.re) - fp_value(z.re))
            && fp_value(final(x).im) == fmod(fp_value(y.im) - fp_value(z.im)),
{
    fp_sub(&mut x.re, &y.re, &z.re);
    fp_sub(&mut x.im, &y.im, &z.im);
}

/// `x = -y`, half by half.
pub fn fp2_neg(x: &mut Fp2, y: &Fp2)
    ensures
        final(x).re == spec_modneg(y.re),
        final(x).im == spec_modneg(y.im),
        fp2_wf(*y) ==> fp2_wf(*final(x))
            && fp_value(final(x).re) == fmod(0 - fp_value(y.re))
            && fp_value(final(x).im) == fmod(0 - fp_value(y.im)),
{
    fp_neg(&mut x.re, &y.re);
    fp_neg(&mut x.im, &y.im);
}

/// `x = y / 2`, half by half.
pub fn fp2_half(x: &mut Fp2, y: &Fp2)
    ensures
        final(x).re == spec_modmul(TWO_INV, y.re),
        final(x).im == spec_modmul(TWO_INV, y.im),
        fp2_wf(*y) ==> fp2_wf(*final(x))
            && (2 * fp_value(final(x).re)) % modulus() == fp_value(y.re)
            && (2 * fp_value(final(x).im)) % modulus() == fp_value(y.im),
{
    fp_half(&mut x.re, &y.re);
    fp_half(&mut x.im, &y.im);
}

/// `d = a0` when `ctl` is `0`, `d = a1` when `ctl` is `0xFFFFFFFF`; half by
/// half, as `fp_select`.
pub fn fp2_select(d: &mut Fp2, a0: &Fp2, a1: &Fp2, ctl: u32)
    ensures
        final(d).re == spec_select(a0.re, a1.re, ctl),
        final(d).im == spec_select(a0.im, a1.im, ctl),
        ctl == 0 ==> *final(d) == *a0,
        ctl == 0xffffffffu32 ==> *final(d) == *a1,
{
    fp_select(&mut d.re, &a0.re, &a1.re, ctl);
    fp_select(&mut d.im, &a0.im, &a1.im, ctl);
}

/// Swap `a` and `b` when the low bit of `ctl` is set; leave them when it is
/// clear.
pub fn fp2_cswap(a: &mut Fp2, b: &mut Fp2, ctl: u32)
    ensures
        ctl & 1 == 0 ==> *final(a) == *old(a) && *final(b) == *old(b),
        ctl & 1 == 1 ==> *final(a) == *old(b) && *final(b) == *old(a),
{
    fp_cswap(&mut a.re, &mut b.re, ctl);
    fp_cswap(&mut a.im, &mut b.im, ctl);
}

/// The limbs of the product in GF(p^2) (three multiplications).
pub open spec fn spec_fp2_mul(y: Fp2, z: Fp2) -> Fp2 {
    let t0 = spec_modadd(y.re, y.im);
    let t1 = spec_modadd(z.re, z.im);
    let t0 = spec_modmul(t0, t1);
    let t1 = spec_modmul(y.im, z.im);
    let re = spec_modmul(y.re, z.re);
    let im = spec_modsub(t0, t1);
    let im = spec_modsub(im, re);
    let re = spec_modsub(re, t1);
    Fp2 { re, im }
}

/// The values of the product in GF(p^2):
/// `(a + b i)(c + d i) = (ac - bd) + (ad + bc) i`.
pub proof fn lemma_fp2_mul_value(y: Fp2, z: Fp2)
    requires
        fp2_wf(y),
        fp2_wf(z),
    ensures
        fp2_wf(spec_fp2_mul(y, z)),
        fp_value(spec_fp2_mul(y, z).re) == fmod(fp_value(y.re) * fp_value(z.re) - fp_value(y.im) * fp_value(z.im)),
        fp_value(spec_fp2_mul(y, z).im) == fmod((fp_value(y.re) * fp_value(z.im) + fp_value(y.im) * fp_value(z.re)) as int),
{
    let a = fp_value(y.re) as int;
    let b = fp_value(y.im) as int;
    let c = fp_value(z.re) as int;
    let d = fp_value(z.im) as int;
    let m = modulus() as int;
    let t0 = spec_modadd(y.re, y.im);
    crate::reduce::lemma_modadd_value(y.re, y.im);
    let t1 = spec_modadd(z.re, z.im);
    crate::reduce::lemma_modadd_value(z.re, z.im);
    let t0b = spec_modmul(t0, t1);
    crate::mont::lemma_wf_mul_fits(t0, t1);
    crate::mont::lemma_modmul_fp_value(t0, t1);
    lemma_mod_ops(a + b, c + d);
    assert(fp_value(t0b) as int == ((a + b) * (c + d)) % m);
    let t1b = spec_modmul(y.im, z.im);
    crate::mont::lemma_wf_mul_fits(y.im, z.im);
    crate::mont::lemma_modmul_fp_value(y.im, z.im);
    let re = spec_modmul(y.re, z.re);
    crate::mont::lemma_wf_mul_fits(y.re, z.re);
    crate::mont::lemma_modmul_fp_value(y.re, z.re);
    let im = spec_modsub(t0b, t1b);
    crate::reduce::lemma_modsub_value(t0b, t1b);
    lemma_mod_ops((a + b) * (c + d), b * d);
    let im2 = spec_modsub(im, re);
    crate::reduce::lemma_modsub_value(im, re);
    lemma_mod_ops((a + b) * (c + d) - b * d, a * c);
    assert((a + b) * (c + d) - b * d - a * c == a * d + b * c) by (nonlinear_arith);
    let re2 = spec_modsub(re, t1b);
    crate::reduce::lemma_modsub_value(re, t1b);
    lemma_mod_ops(a * c, b * d);
}

/// `x = y * z` in GF(p^2).
pub fn fp2_mul(x: &mut Fp2, y: &Fp2, z: &Fp2)
    ensures
        *final(x) == spec_fp2_mul(*y, *z),
        fp2_wf(*y) && fp2_wf(*z) ==> fp2_wf(*final(x))
            && fp_value(final(x).re) == fmod(fp_value(y.re) * fp_value(z.re) - fp_value(y.im) * fp_value(z.im))
            && fp_value(final(x).im) == fmod((fp_value(y.re) * fp_value(z.im) + fp_value(y.im) * fp_value(z.re)) as int),
{
    let mut t0: Fp = [0u64; NWORDS_FIELD];
    let mut t1: Fp = [0u64; NWORDS_FIELD];
    fp_add(&mut t0, &y.re, &y.im);
    fp_add(&mut t1, &z.re, &z.im);
    let snap_t0 = t0;
    fp_mul(&mut t0, &snap_t0, &t1);
    fp_mul(&mut t1, &y.im, &z.im);
    fp_mul(&mut x.re, &y.re, &z.re);
    let snap_xre = x.re;
    fp_sub(&mut x.im, &t0, &t1);
    let snap_xim = x.im;
    fp_sub(&mut x.im, &snap_xim, &snap_xre);
    let snap_xre2 = x.re;
    fp_sub(&mut x.re, &snap_xre2, &t1);
    proof {
        if fp2_wf(*y) && fp2_wf(*z) {
            lemma_fp2_mul_value(*y, *z);
        }
    }
}

/// The limbs of the square in GF(p^2).
pub open spec fn spec_fp2_sqr(y: Fp2) -> Fp2 {
    let sum = spec_modadd(y.re, y.im);
    let diff = spec_modsub(y.re, y.im);
    let im = spec_modmul(y.re, y.im);
    let im = spec_modadd(im, im);
    let re = spec_modmul(sum, diff);
    Fp2 { re, im }
}

/// The values of the square in GF(p^2): `(a + b i)^2 = (a^2 - b^2) + 2ab i`.
pub proof fn lemma_fp2_sqr_value(y: Fp2)
    requires
        fp2_wf(y),
    ensures
        fp2_wf(spec_fp2_sqr(y)),
        fp_value(spec_fp2_sqr(y).re) == fmod(fp_value(y.re) * fp_value(y.re) - fp_value(y.im) * fp_value(y.im)),
        fp_value(spec_fp2_sqr(y).im) == fmod((2 * (fp_value(y.re) * fp_value(y.im))) as int),
{
    let a = fp_value(y.re) as int;
    let b = fp_value(y.im) as int;
    let sum = spec_modadd(y.re, y.im);
    crate::reduce::lemma_modadd_value(y.re, y.im);
    let diff = spec_modsub(y.re, y.im);
    crate::reduce::lemma_modsub_value(y.re, y.im);
    let im = spec_modmul(y.re, y.im);
    crate::mont::lemma_wf_mul_fits(y.re, y.im);
    crate::mont::lemma_modmul_fp_value(y.re, y.im);
    crate::reduce::lemma_modadd_value(im, im);
    lemma_mod_ops(a * b, a * b);
    crate::mont::lemma_wf_mul_fits(sum, diff);
    crate::mont::lemma_modmul_fp_value(sum, diff);
    lemma_mod_ops(a + b, a - b);
    assert((a + b) * (a - b) == a * a - b * b) by (nonlinear_arith);
}

/// `x = y^2` in GF(p^2).
pub fn fp2_sqr(x: &mut Fp2, y: &Fp2)
    ensures
        *final(x) == spec_fp2_sqr(*y),
        fp2_wf(*y) ==> fp2_wf(*final(x))
            && fp_value(final(x).re) == fmod(fp_value(y.re) * fp_value(y.re) - fp_value(y.im) * fp_value(y.im))
            && fp_value(final(x).im) == fmod((2 * (fp_value(y.re) * fp_value(y.im))) as int),
{
    let mut sum: Fp = [0u64; NWORDS_FIELD];
    let mut diff: Fp = [0u64; NWORDS_FIELD];
    fp_add(&mut sum, &y.re, &y.im);
    fp_sub(&mut diff, &y.re, &y.im);
    fp_mul(&mut x.im, &y.re, &y.im);
    let snap_xim = x.im;
    fp_add(&mut x.im, &snap_xim, &snap_xim);
    fp_mul(&mut x.re, &sum, &diff);
    proof {
        if fp2_wf(*y) {
            lemma_fp2_sqr_value(*y);
        }
    }
}

/// The limbs of the norm `re^2 + im^2` as `fp2_inv` and `fp2_is_square`
/// compute it.
pub open spec fn spec_norm(x: Fp2) -> Fp {
    spec_modadd(spec_modmul(x.re, x.re), spec_modmul(x.im, x.im))
}

/// The norm of a well-formed element: `(a^2 + b^2) mod p`.
pub proof fn lemma_norm_value(x: Fp2)
    requires
        fp2_wf(x),
    ensures
        fp_wf(spec_norm(x)),
        fp_value(spec_norm(x)) == fmod((fp_value(x.re) * fp_value(x.re) + fp_value(x.im) * fp_value(x.im)) as int),
{
    let a = fp_value(x.re) as int;
    let b = fp_value(x.im) as int;
    crate::mont::lemma_wf_mul_fits(x.re, x.re);
    crate::mont::lemma_modmul_fp_value(x.re, x.re);
    crate::mont::lemma_wf_mul_fits(x.im, x.im);
    crate::mont::lemma_modmul_fp_value(x.im, x.im);
    crate::reduce::lemma_modadd_value(spec_modmul(x.re, x.re), spec_modmul(x.im, x.im));
    lemma_mod_ops(a * a, b * b);
}

/// The value `fp2_inv` computes for `a + b i`: `(a - b i) * N^(p-2)` with
/// the norm `N = a^2 + b^2`; the inverse of every non-zero element
/// (`lemma_f2inv`).
pub open spec fn f2inv(v: (nat, nat)) -> (nat, nat) {
    let ni = fpow(fmod((v.0 * v.0 + v.1 * v.1) as int), exp_inv());
    ((v.0 * ni) % modulus(), fmod(0 - (v.1 * ni) % modulus()))
}

/// The limbs of the inverse in GF(p^2): `(re, -im)` scaled by the inverse
/// of the norm.
pub open spec fn spec_fp2_inv(x: Fp2) -> Fp2 {
    let n = spec_norm(x);
    let ninv = spec_modinv(n, spec_modpro(n));
    Fp2 { re: spec_modmul(x.re, ninv), im: spec_modneg(spec_modmul(x.im, ninv)) }
}

/// `x = x^-1` in GF(p^2): `(a - b i) * N^(p-2)` for the norm `N = a^2 + b^2`;
/// its product with a non-zero `x` is one (and zero gives zero).
pub fn fp2_inv(x: &mut Fp2)
    ensures
        *final(x) == spec_fp2_inv(*old(x)),
        fp2_wf(*old(x)) ==> fp2_wf(*final(x)) && fp2_value(*final(x)) == f2inv(fp2_value(*old(x))),
        fp2_wf(*old(x)) && fp2_value(*old(x)) != (0nat, 0nat)
            ==> f2mul(fp2_value(*final(x)), fp2_value(*old(x))) == (1nat, 0nat),
{
    let mut t0: Fp = [0u64; NWORDS_FIELD];
    let mut t1: Fp = [0u64; NWORDS_FIELD];
    fp_sqr(&mut t0, &x.re);
    fp_sqr(&mut t1, &x.im);
    let snap_t0 = t0;
    fp_add(&mut t0, &snap_t0, &t1);
    fp_inv(&mut t0);
    let snap_xre = x.re;
    fp_mul(&mut x.re, &snap_xre, &t0);
    let snap_xim = x.im;
    fp_mul(&mut x.im, &snap_xim, &t0);
    let snap_xim2 = x.im;
    fp_neg(&mut x.im, &snap_xim2);
    proof {
        if fp2_wf(*old(x)) {
            lemma_norm_value(*old(x));
            if fp2_value(*old(x)) != (0nat, 0nat) {
                crate::fermat::lemma_f2inv(fp2_value(*old(x)));
            }
        }
    }
}

/// The all-ones mask when the norm `re^2 + im^2` is zero or a square by
/// Euler's criterion, else `0`.
pub fn fp2_is_square(x: &Fp2) -> (r: u32)
    ensures
        r == (if fp_value(spec_euler(spec_norm(*x), spec_modpro(spec_norm(*x)))) == 1
            || fp_value(spec_norm(*x)) == 0 { 0xffffffffu32 } else { 0u32 }),
        fp2_wf(*x) ==> ({
            let n = fmod((fp_value(x.re) * fp_value(x.re) + fp_value(x.im) * fp_value(x.im)) as int);
            r == 0xffffffffu32 <==> fpow(n, exp_euler()) == 1 || n == 0
        }),
        fp2_wf(*x) ==> (r == 0xffffffffu32 <==> is_f2_square(fp2_value(*x))),
{
    let mut t0: Fp = [0u64; NWORDS_FIELD];
    let mut t1: Fp = [0u64; NWORDS_FIELD];
    fp_sqr(&mut t0, &x.re);
    fp_sqr(&mut t1, &x.im);
    let snap = t0;
    fp_add(&mut t0, &snap, &t1);
    proof {
        if fp2_wf(*x) {
            lemma_norm_value(*x);
            crate::fermat::lemma_f2_square_norm(fp_value(x.re), fp_value(x.im));
        }
    }
    fp_is_square(&t0)
}

/// Write the 64-byte encoding: the 32 bytes of `re`, then those of `im`.
pub fn fp2_encode(dst: &mut [u8; FP2_ENCODED_BYTES], a: &Fp2)
    ensures
        forall|j: int| 0 <= j < 32 ==> #[trigger] final(dst)[j] == byte_of(fp_value(a.re), j as nat),
        forall|j: int| 32 <= j < 64 ==> #[trigger] final(dst)[j] == byte_of(fp_value(a.im), (j - 32) as nat),
        le_val(final(dst)@.subrange(0, 32)) == fp_value(a.re),
        le_val(final(dst)@.subrange(32, 64)) == fp_value(a.im),
{
    let mut re_arr: [u8; 32] = [0u8; 32];
    let mut im_arr: [u8; 32] = [0u8; 32];
    fp_encode(&mut re_arr, &a.re);
    fp_encode(&mut im_arr, &a.im);
    let mut i: usize = 0;
    while i < 32
        invariant
            0 <= i <= 32,
            forall|j: int| 0 <= j < i ==> #[trigger] dst[j] == re_arr[j],
            forall|j: int| 0 <= j < i ==> #[trigger] dst[j + 32] == im_arr[j],
        decreases 32 - i,
    {
        dst[i] = re_arr[i];
        dst[i + 32] = im_arr[i];
        i += 1;
    }
    proof {
        assert(dst@.subrange(0, 32) =~= re_arr@);
        assert(dst@.subrange(32, 64) =~= im_arr@);
        assert forall|j: int| 32 <= j < 64 implies #[trigger] dst[j] == byte_of(fp_value(a.im), (j - 32) as nat) by {
            assert(dst[(j - 32) + 32] == im_arr[j - 32]);
        }
    }
}

/// Read 64 bytes: `re` from the first 32, `im` from the last 32, each as
/// `fp_decode`; the all-ones mask when both halves are below `p`, else `0`.
pub fn fp2_decode(d: &mut Fp2, src: &[u8; FP2_ENCODED_BYTES]) -> (r: u32)
    ensures
        ({
            let vr = le_val(src@.subrange(0, 32));
            let vi = le_val(src@.subrange(32, 64));
            &&& r == (if vr < modulus() && vi < modulus() { 0xffffffffu32 } else { 0u32 })
            &&& vr < modulus() ==> final(d).re == spec_modmul(limbs_of(vr), NRES_C)
                && fp_wf(final(d).re) && fp_value(final(d).re) == vr
            &&& vr >= modulus() ==> final(d).re == [0u64; NWORDS_FIELD]
            &&& vi < modulus() ==> final(d).im == spec_modmul(limbs_of(vi), NRES_C)
                && fp_wf(final(d).im) && fp_value(final(d).im) == vi
            &&& vi >= modulus() ==> final(d).im == [0u64; NWORDS_FIELD]
        }),
{
    let mut re_arr: [u8; 32] = [0u8; 32];
    let mut im_arr: [u8; 32] = [0u8; 32];
    let mut i: usize = 0;
    while i < 32
        invariant
            0 <= i <= 32,
            forall|j: int| 0 <= j < i ==> #[trigger] re_arr[j] == src[j],
            forall|j: int| 0 <= j < i ==> #[trigger] im_arr[j] == src[j + 32],
        decreases 32 - i,
    {
        re_arr[i] = src[i];
        im_arr[i] = src[i + 32];
        i += 1;
    }
    proof {
        assert(re_arr@ =~= src@.subrange(0, 32));
        assert(im_arr@ =~= src@.subrange(32, 64));
    }
    let re = fp_decode(&mut d.re, &re_arr);
    let im = fp_decode(&mut d.im, &im_arr);
    proof {
        lemma_mask_and(re, im);
    }
    re & im
}

/// The square root that `fp2_sqrt` computes, on field values `a + b i`
/// (a root of every square: `crate::fermat::lemma_f2_square_norm`):
/// with `delta` the square root of the norm (or `a` when `b` is zero),
/// `x0 = delta + a`, `x1 = (2 x0)^((p-3)/4)`; the candidate `x0 x1 + b x1 i`
/// is kept when `(2 x0 x1)^2 == 2 x0`, else `b x1 - x0 x1 i` is taken; the
/// result is negated when its real part is odd, or zero with an odd
/// imaginary part.
pub open spec fn fp2_sqrt_value(a: nat, b: nat) -> (nat, nat) {
    let p = modulus();
    let n = fmod((a * a + b * b) as int);
    let delta = if b == 0 { a } else { fpow(n, exp_sqrt()) };
    let x0 = (delta + a) % p;
    let t0 = (x0 + x0) % p;
    let x1 = fpow(t0, exp_3div4());
    let y0 = (x0 * x1) % p;
    let y1 = (x1 * b) % p;
    let u = (y0 + y0) % p;
    let t1 = (u * u) % p;
    let f = fmod(t0 - t1) == 0;
    let r0 = if f { y0 } else { y1 };
    let r1 = if f { y1 } else { fmod(0 - y0) };
    let negate = r0 % 2 == 1 || (r0 == 0 && r1 % 2 == 1);
    if negate { (fmod(0 - r0), fmod(0 - r1)) } else { (r0, r1) }
}

/// The limbs `fp2_sqrt` writes, for any input limbs: the steps of
/// `fp2_sqrt_value` on limbs, the two candidates chosen by the mask of the
/// test, and the final negation chosen by the parity of the canonical
/// residues.
pub open spec fn spec_fp2_sqrt(a: Fp2) -> Fp2 {
    let n = spec_modadd(spec_modsqr(a.re), spec_modsqr(a.im));
    let delta = spec_select(spec_modsqrt(n, spec_modpro(n)), a.re, zero_mask(a.im));
    let x0 = spec_modadd(delta, a.re);
    let t0 = spec_modadd(x0, x0);
    let x1 = spec_modpro(t0);
    let y0 = spec_modmul(x0, x1);
    let y1 = spec_modmul(x1, a.im);
    let t1 = spec_modsqr(spec_modadd(y0, y0));
    let f = zero_mask(spec_modsub(t0, t1));
    let r0 = spec_select(y1, y0, f);
    let r1 = spec_select(spec_modneg(y0), y1, f);
    let negate = fp_value(r0) % 2 == 1 || (fp_value(r0) == 0 && fp_value(r1) % 2 == 1);
    let m = if negate { 0xffffffffu32 } else { 0u32 };
    Fp2 { re: spec_select(r0, spec_modneg(r0), m), im: spec_select(r1, spec_modneg(r1), m) }
}

/// The low bit of the canonical residue of `t`, as a mask.
fn parity_mask(t: &Fp) -> (r: u32)
    ensures
        r == (if fp_value(*t) % 2 == 1 { 0xffffffffu32 } else { 0u32 }),
{
    let mut tmp_bytes: [u8; 32] = [0u8; 32];
    fp_encode(&mut tmp_bytes, t);
    let b0 = tmp_bytes[0];
    proof {
        let v = fp_value(*t);
        assert(b0 == byte_of(v, 0));
        vstd::arithmetic::power2::lemma2_to64();
        vstd::arithmetic::div_mod::lemma_div_basics(v as int);
        assert(v / pow2(0) == v);
        assert((v % 256) % 2 == v % 2) by {
            vstd::arithmetic::div_mod::lemma_mod_mod(v as int, 2, 128);
        }
        crate::bits::lemma_u32_bits(b0 as u32, 0);
    }
    0u32.wrapping_sub((b0 as u32) & 1)
}

/// `a = sqrt(a)` in GF(p^2): for a well-formed square `a`, a root of it,
/// the one with an even real part (an even imaginary part when the real
/// part is zero).
#[verifier::rlimit(40)]
pub fn fp2_sqrt(a: &mut Fp2)
    ensures
        *final(a) == spec_fp2_sqrt(*old(a)),
        fp2_wf(*old(a)) ==> fp2_wf(*final(a))
            && (fp_value(final(a).re), fp_value(final(a).im))
                == fp2_sqrt_value(fp_value(old(a).re), fp_value(old(a).im)),
        fp2_wf(*old(a)) && is_f2_square(fp2_value(*old(a)))
            ==> f2mul(fp2_value(*final(a)), fp2_value(*final(a))) == fp2_value(*old(a)),
        fp2_wf(*old(a)) ==> fp_value(final(a).re) % 2 == 0
            && (fp_value(final(a).re) == 0 ==> fp_value(final(a).im) % 2 == 0),
{
    let ghost wf = fp2_wf(*a);
    let ghost va = fp_value(a.re);
    let ghost vb = fp_value(a.im);
    let ghost p = modulus();
    let mut x0: Fp = [0u64; NWORDS_FIELD];
    let mut x1: Fp = [0u64; NWORDS_FIELD];
    let mut t0: Fp = [0u64; NWORDS_FIELD];
    let mut t1: Fp = [0u64; NWORDS_FIELD];

    fp_sqr(&mut x0, &a.re);
    fp_sqr(&mut x1, &a.im);
    let snap_x0 = x0;
    fp_add(&mut x0, &snap_x0, &x1);
    proof {
        if wf {
            lemma_norm_value(*a);
            assert(x0 == spec_norm(*a));
        }
    }
    fp_sqrt(&mut x0);
    let snap_x0b = x0;
    let im_zero = fp_is_zero(&a.im);
    fp_select(&mut x0, &snap_x0b, &a.re, im_zero);
    let snap_x0c = x0;
    fp_add(&mut x0, &snap_x0c, &a.re);
    fp_add(&mut t0, &x0, &x0);
    fp_exp3div4(&mut x1, &t0);
    let snap_x0d = x0;
    fp_mul(&mut x0, &snap_x0d, &x1);
    let snap_x1 = x1;
    fp_mul(&mut x1, &snap_x1, &a.im);
    fp_add(&mut t1, &x0, &x0);
    let snap_t1 = t1;
    fp_sqr(&mut t1, &snap_t1);
    let snap_t0b = t0;
    fp_sub(&mut t0, &snap_t0b, &t1);
    let f = fp_is_zero(&t0);
    fp_neg(&mut t1, &x0);
    fp_copy(&mut t0, &x1);
    let snap_t0c = t0;
    fp_select(&mut t0, &snap_t0c, &x0, f);
    let snap_t1b = t1;
    fp_select(&mut t1, &snap_t1b, &x1, f);

    let t0_is_zero = fp_is_zero(&t0);
    let t0_is_odd = parity_mask(&t0);
    let t1_is_odd = parity_mask(&t1);
    proof {
        lemma_mask_and(t0_is_zero, t1_is_odd);
        lemma_mask_and(t0_is_odd, t0_is_zero & t1_is_odd);
    }
    let negate_output = t0_is_odd | (t0_is_zero & t1_is_odd);
    fp_neg(&mut x0, &t0);
    fp_select(&mut a.re, &t0, &x0, negate_output);
    fp_neg(&mut x0, &t1);
    fp_select(&mut a.im, &t1, &x0, negate_output);
    proof {
        if wf {
            crate::fermat::lemma_sqrt_value_reduced(va, vb);
            crate::fermat::lemma_f2_square_norm(va, vb);
        }
    }
}

/// `a = sqrt(a)` as `fp2_sqrt`; the all-ones mask when the square of the
/// result equals the input in the field, else `0`.
pub fn fp2_sqrt_verify(a: &mut Fp2) -> (r: u32)
    ensures
        *final(a) == spec_fp2_sqrt(*old(a)),
        fp2_wf(*old(a)) ==> fp2_wf(*final(a))
            && (fp_value(final(a).re), fp_value(final(a).im))
                == fp2_sqrt_value(fp_value(old(a).re), fp_value(old(a).im)),
        r == (if fp_value(spec_fp2_sqr(*final(a)).re) == fp_value(old(a).re)
            && fp_value(spec_fp2_sqr(*final(a)).im) == fp_value(old(a).im) { 0xffffffffu32 } else { 0u32 }),
        fp2_wf(*old(a)) ==> (r == 0xffffffffu32 <==> is_f2_square(fp2_value(*old(a)))),
{
    let t0 = *a;
    fp2_sqrt(a);
    let mut t1 = Fp2 { re: [0u64; NWORDS_FIELD], im: [0u64; NWORDS_FIELD] };
    fp2_sqr(&mut t1, a);
    let r = fp2_is_equal(&t0, &t1);
    proof {
        if fp2_wf(t0) {
            lemma_sqrt_check(t0, *a);
        }
    }
    r
}

/// The check of `fp2_sqrt_verify`: for a well-formed `x` and `s` its root as
/// `fp2_sqrt` computes it, `s^2` equals `x` in the field exactly when `x` is
/// a square.
pub proof fn lemma_sqrt_check(x: Fp2, s: Fp2)
    requires
        fp2_wf(x),
        fp2_wf(s),
        (fp_value(s.re), fp_value(s.im)) == fp2_sqrt_value(fp_value(x.re), fp_value(x.im)),
    ensures
        (fp_value(spec_fp2_sqr(s).re) == fp_value(x.re) && fp_value(spec_fp2_sqr(s).im) == fp_value(x.im))
            <==> is_f2_square(fp2_value(x)),
{
    let fa = fp_value(s.re);
    let fb = fp_value(s.im);
    lemma_fp2_sqr_value(s);
    assert(2 * (fa * fb) == fa * fb + fb * fa) by (nonlinear_arith);
    assert(f2mul((fa, fb), (fa, fb)) == (fp_value(spec_fp2_sqr(s).re), fp_value(spec_fp2_sqr(s).im)));
    crate::fermat::lemma_f2_square_norm(fp_value(x.re), fp_value(x.im));
    if fp_value(spec_fp2_sqr(s).re) == fp_value(x.re) && fp_value(spec_fp2_sqr(s).im) == fp_value(x.im) {
        assert(f2mul((fa, fb), (fa, fb)) == fp2_value(x));
    }
}

/// The integer little-endian 64-bit words spell.
pub open spec fn words_le(s: Seq<u64>) -> nat
    decreases s.len(),
{
    if s.len() == 0 {
        0
    } else {
        words_le(s.drop_last()) + (s.last() as nat) * pow2((64 * (s.len() - 1)) as nat)
    }
}

/// Square-and-multiply: the next bit of a word.
pub proof fn lemma_next_bit(w: u64, i: u64)
    requires
        i < 64,
    ensures
        ((w >> i) & 1 == 1) ==> (w as nat) % pow2((i + 1) as nat)
            == (w as nat) % pow2(i as nat) + pow2(i as nat),
        ((w >> i) & 1 != 1) ==> (w as nat) % pow2((i + 1) as nat)
            == (w as nat) % pow2(i as nat),
{
    vstd::bits::lemma_u64_shr_is_div(w, i);
    let y = w >> i;
    crate::bits::lemma_word_bits(y, 0);
    vstd::arithmetic::power2::lemma_pow2_pos(i as nat);
    vstd::arithmetic::power2::lemma_pow2_unfold((i + 1) as nat);
    let pi = pow2(i as nat);
    assert(pi * 2 == pow2((i + 1) as nat));
    vstd::arithmetic::div_mod::lemma_mod_breakdown(w as int, pi as int, 2);
    assert((w as int) % ((pi as int) * 2) == (pi as int) * (((w as int) / (pi as int)) % 2) + (w as int) % (pi as int));
    assert(y as int == (w as int) / (pi as int));
    assert((w as nat) % pow2((i + 1) as nat) == (w as int) % ((pi as int) * 2));
    assert((w as nat) % pow2(i as nat) == (w as int) % (pi as int));
    let q = ((w as int) / (pi as int)) % 2;
    let pii = pi as int;
    if (w >> i) & 1 == 1 {
        assert(q == 1);
        assert(pii * q == pii) by (nonlinear_arith)
            requires q == 1;
    } else {
        assert(q == 0);
        assert(pii * q == 0) by (nonlinear_arith)
            requires q == 0;
    }
}

/// The limbs of one in GF(p^2).
pub open spec fn fp2_one_limbs() -> Fp2 {
    Fp2 { re: MONTGOMERY_ONE, im: [0u64; NWORDS_FIELD] }
}

/// The limbs of the running result and of the running square after the
/// first `n` bits of the exponent, for any input limbs; bit `j` is bit
/// `j % 64` of word `j / 64`.
pub open spec fn spec_pow_steps(x: Fp2, exp: Seq<u64>, n: nat) -> (Fp2, Fp2)
    decreases n,
{
    if n == 0 {
        (fp2_one_limbs(), x)
    } else {
        let prev = spec_pow_steps(x, exp, (n - 1) as nat);
        let j = (n - 1) as nat;
        let bit = (exp[(j / 64) as int] >> ((j % 64) as u64)) & 1;
        let out = if bit == 1 { spec_fp2_mul(prev.0, prev.1) } else { prev.0 };
        (out, spec_fp2_sqr(prev.1))
    }
}

/// One step of `spec_pow_steps`: bit `i` of word `k`.
pub proof fn lemma_pow_step(x: Fp2, exp: Seq<u64>, k: nat, i: u64)
    requires
        i < 64,
    ensures
        spec_pow_steps(x, exp, (64 * k + i + 1) as nat) == ({
            let prev = spec_pow_steps(x, exp, (64 * k + i) as nat);
            let out = if (exp[k as int] >> i) & 1 == 1 { spec_fp2_mul(prev.0, prev.1) } else { prev.0 };
            (out, spec_fp2_sqr(prev.1))
        }),
{
    let j = (64 * k + i) as nat;
    vstd::arithmetic::div_mod::lemma_fundamental_div_mod_converse(j as int, 64, k as int, i as int);
    assert((j % 64) as u64 == i);
    assert((j / 64) as int == k as int);
}

/// `out = x^exp` in GF(p^2), for the exponent given as little-endian 64-bit
/// words; square-and-multiply over every bit, not constant time.
pub fn fp2_pow_vartime(out: &mut Fp2, x: &Fp2, exp: &[u64])
    ensures
        *final(out) == spec_pow_steps(*x, exp@, 64 * exp@.len()).0,
        fp2_wf(*x) ==> fp2_wf(*final(out)) && fp2_value(*final(out)) == f2pow(fp2_value(*x), words_le(exp@)),
{
    let mut acc = *x;
    fp2_set_one(out);
    proof {
        assert(*out == fp2_one_limbs());
    }
    let ghost xv = fp2_value(*x);
    let ghost wf = fp2_wf(*x);
    proof {
        vstd::arithmetic::power2::lemma2_to64();
        if wf {
            reveal_with_fuel(f2pow, 2);
            crate::ext_spec::lemma_f2mul_one(xv);
        }
        assert(exp@.subrange(0, 0) =~= Seq::<u64>::empty());
    }
    let mut k: usize = 0;
    while k < exp.len()
        invariant
            0 <= k <= exp@.len(),
            exp@.len() == exp.len(),
            xv == fp2_value(*x),
            wf == fp2_wf(*x),
            wf ==> fp2_wf(*out) && fp2_value(*out) == f2pow(xv, words_le(exp@.subrange(0, k as int))),
            wf ==> fp2_wf(acc) && fp2_value(acc) == f2pow(xv, pow2(64 * (k as nat))),
            (*out, acc) == spec_pow_steps(*x, exp@, 64 * (k as nat)),
        decreases exp.len() - k,
    {
        let word = exp[k];
        let ghost base = words_le(exp@.subrange(0, k as int));
        let ghost wk = pow2(64 * (k as nat));
        let mut i: u64 = 0;
        proof {
            vstd::arithmetic::power2::lemma2_to64();
            assert((word as nat) % 1 == 0);
        }
        while i < 64
            invariant
                0 <= i <= 64,
                xv == fp2_value(*x),
                wf == fp2_wf(*x),
                wk == pow2(64 * (k as nat)),
                wf ==> fp2_wf(*out) && fp2_value(*out)
                    == f2pow(xv, base + ((word as nat) % pow2(i as nat)) * wk),
                wf ==> fp2_wf(acc) && fp2_value(acc) == f2pow(xv, pow2((64 * k + i) as nat)),
                k < exp@.len(),
                word == exp@[k as int],
                (*out, acc) == spec_pow_steps(*x, exp@, (64 * k + i) as nat),
            decreases 64 - i,
        {
            let bit = (word >> i) & 1;
            proof {
                lemma_pow_step(*x, exp@, k as nat, i);
                lemma_next_bit(word, i);
                vstd::arithmetic::power2::lemma_pow2_adds(64 * (k as nat), i as nat);
            }
            if bit == 1 {
                let snap_out = *out;
                fp2_mul(out, &snap_out, &acc);
                proof {
                    if wf {
                        crate::ext_spec::lemma_f2pow_add(xv,
                            base + ((word as nat) % pow2(i as nat)) * wk,
                            pow2((64 * k + i) as nat));
                        let m = (word as nat) % pow2(i as nat);
                        let pi = pow2(i as nat);
                        assert((m + pi) * wk == m * wk + pi * wk) by (nonlinear_arith);
                        assert(pi * wk == wk * pi) by (nonlinear_arith);
                    }
                }
            }
            let snap_acc = acc;
            fp2_sqr(&mut acc, &snap_acc);
            proof {
                if wf {
                    let e = pow2((64 * k + i) as nat);
                    let av = fp2_value(snap_acc);
                    assert(2 * (av.0 * av.1) == av.0 * av.1 + av.1 * av.0) by (nonlinear_arith);
                    crate::ext_spec::lemma_f2pow_add(xv, e, e);
                    vstd::arithmetic::power2::lemma_pow2_unfold((64 * k + i + 1) as nat);
                }
            }
            i += 1;
        }
        proof {
            let s = exp@.subrange(0, k + 1);
            assert(s.drop_last() =~= exp@.subrange(0, k as int));
            assert(s.last() == word);
            vstd::arithmetic::div_mod::lemma_small_mod(word as nat, pow2(64));
            assert(64 * ((k + 1) as nat) == 64 * k + 64);
        }
        k += 1;
    }
    proof {
        assert(exp@.subrange(0, exp@.len() as int) =~= exp@);
    }
}

/// The GF(p^2) elements that a sequence of pairs of limbs stands for.
pub open spec fn fp2_values(s: Seq<Fp2>) -> Seq<(nat, nat)> {
    s.map_values(|a: Fp2| fp2_value(a))
}

/// Every element of the sequence is well formed.
pub open spec fn all_fp2_wf(s: Seq<Fp2>) -> bool {
    forall|i: int| 0 <= i < s.len() ==> fp2_wf(#[trigger] s[i])
}

/// The value `fp2_batched_inv` leaves at position `i`: the product of all
/// the other elements, times the inverse (as `fp2_inv` computes it) of the
/// product of all of them.
pub open spec fn batched_inv_value(vs: Seq<(nat, nat)>, i: int) -> (nat, nat) {
    f2mul(f2mul(f2prod(vs.subrange(0, i)), f2inv(f2prod(vs))), f2prod(vs.subrange(i + 1, vs.len() as int)))
}

/// Values of well-formed elements are reduced pairs.
pub proof fn lemma_values_reduced(s: Seq<Fp2>)
    ensures
        all_reduced(fp2_values(s)),
        fp2_values(s).len() == s.len(),
{
    assert forall|i: int| 0 <= i < fp2_values(s).len() implies (#[trigger] fp2_values(s)[i]).0 < modulus()
        && fp2_values(s)[i].1 < modulus() by {
        assert(fp2_values(s)[i] == fp2_value(s[i]));
    }
}

/// The limbs of the prefix product `x[0] * ... * x[j]`, for any limbs.
pub open spec fn spec_prefix(xs: Seq<Fp2>, j: nat) -> Fp2
    decreases j,
{
    if j == 0 {
        xs[0]
    } else {
        spec_fp2_mul(spec_prefix(xs, (j - 1) as nat), xs[j as int])
    }
}

/// The limbs of `inv * x[n-1] * ... * x[n-j]` for `n` elements, for any
/// limbs.
pub open spec fn spec_suffix(xs: Seq<Fp2>, inv: Fp2, j: nat) -> Fp2
    decreases j,
{
    if j == 0 {
        inv
    } else {
        spec_fp2_mul(spec_suffix(xs, inv, (j - 1) as nat), xs[xs.len() - j])
    }
}

/// The limbs `fp2_batched_inv` leaves at position `i`, for any limbs: the
/// product before `i` times the inverse of the whole product times the
/// product after `i`.
pub open spec fn spec_batched_inv(xs: Seq<Fp2>, i: int) -> Fp2 {
    let n = xs.len() as int;
    let inv = spec_fp2_inv(spec_prefix(xs, (n - 1) as nat));
    if i == 0 {
        spec_suffix(xs, inv, (n - 1) as nat)
    } else {
        spec_fp2_mul(spec_prefix(xs, (i - 1) as nat), spec_suffix(xs, inv, (n - i - 1) as nat))
    }
}

/// Invert every element of `x` with one GF(p^2) inversion: prefix products,
/// one inversion of the total, and suffix products.
#[verifier::rlimit(60)]
pub fn fp2_batched_inv(x: &mut [Fp2])
    ensures
        final(x)@.len() == old(x)@.len(),
        forall|i: int| 0 <= i < old(x)@.len() ==> #[trigger] final(x)@[i] == spec_batched_inv(old(x)@, i),
        all_fp2_wf(old(x)@) ==> all_fp2_wf(final(x)@) && forall|i: int| 0 <= i < old(x)@.len() ==>
            #[trigger] fp2_value(final(x)@[i]) == batched_inv_value(fp2_values(old(x)@), i),
        all_fp2_wf(old(x)@) && (forall|i: int| 0 <= i < old(x)@.len() ==> #[trigger] fp2_value(old(x)@[i]) != (0nat, 0nat))
            ==> forall|i: int| 0 <= i < old(x)@.len()
                ==> #[trigger] f2mul(fp2_value(final(x)@[i]), fp2_value(old(x)@[i])) == (1nat, 0nat),
{
    let len = x.len();
    if len == 0 {
        return;
    }
    let ghost xs = x@;
    let ghost vs = fp2_values(x@);
    let ghost wf = all_fp2_wf(x@);
    let ghost n = len as int;
    proof {
        lemma_values_reduced(xs);
    }
    let zero_fp2 = Fp2 { re: [0u64; NWORDS_FIELD], im: [0u64; NWORDS_FIELD] };
    let mut t1: Vec<Fp2> = vec![zero_fp2; len];
    let mut t2: Vec<Fp2> = vec![zero_fp2; len];

    let mut c = zero_fp2;
    fp2_copy(&mut c, &x[0]);
    t1.set(0, c);
    proof {
        if wf {
            let s1 = vs.subrange(0, 1);
            reveal_with_fuel(f2prod, 2);
            assert(s1.drop_last() =~= Seq::<(nat, nat)>::empty());
            assert(s1.last() == vs[0]);
            crate::ext_spec::lemma_f2mul_one(vs[0]);
            assert(f2prod(s1) == vs[0]);
            assert(vs[0] == fp2_value(xs[0]));
            assert(fp2_wf(xs[0]));
            assert(t1@[0] == xs[0]);
        }
    }
    let mut i: usize = 1;
    while i < len
        invariant
            1 <= i <= len,
            len == x@.len(),
            x@ == xs,
            t1@.len() == len,
            t2@.len() == len,
            vs == fp2_values(xs),
            all_reduced(vs),
            vs.len() == n,
            n == len,
            wf == all_fp2_wf(xs),
            wf ==> forall|j: int| 0 <= j < i ==> fp2_wf(#[trigger] t1@[j])
                && fp2_value(t1@[j]) == f2prod(vs.subrange(0, j + 1)),
            forall|j: int| 0 <= j < i ==> #[trigger] t1@[j] == spec_prefix(xs, j as nat),
        decreases len - i,
    {
        let prev = t1[i - 1];
        let mut r = zero_fp2;
        fp2_mul(&mut r, &prev, &x[i]);
        t1.set(i, r);
        proof {
            if wf {
                assert(vs.subrange(0, i + 1).drop_last() =~= vs.subrange(0, i as int));
                assert(vs[i as int] == fp2_value(xs[i as int]));
                assert(fp2_wf(xs[i as int]));
            }
        }
        i += 1;
    }

    let mut inverse = t1[len - 1];
    fp2_inv(&mut inverse);
    let ghost inv = f2inv(f2prod(vs));
    let ghost inv_l = spec_fp2_inv(spec_prefix(xs, (n - 1) as nat));
    proof {
        if wf {
            assert(vs.subrange(0, n) =~= vs);
        }
    }

    let mut c2 = zero_fp2;
    fp2_copy(&mut c2, &inverse);
    t2.set(0, c2);
    proof {
        if wf {
            assert(vs.subrange(n, n) =~= Seq::<(nat, nat)>::empty());
            crate::ext_spec::lemma_f2mul_one(inv);
        }
    }
    let mut i: usize = 1;
    while i < len
        invariant
            1 <= i <= len,
            len == x@.len(),
            x@ == xs,
            t1@.len() == len,
            t2@.len() == len,
            vs == fp2_values(xs),
            all_reduced(vs),
            vs.len() == n,
            n == len,
            wf == all_fp2_wf(xs),
            inv == f2inv(f2prod(vs)),
            inv.0 < modulus() && inv.1 < modulus(),
            wf ==> forall|j: int| 0 <= j < len ==> fp2_wf(#[trigger] t1@[j])
                && fp2_value(t1@[j]) == f2prod(vs.subrange(0, j + 1)),
            wf ==> forall|j: int| 0 <= j < i ==> fp2_wf(#[trigger] t2@[j])
                && fp2_value(t2@[j]) == f2mul(inv, f2prod(vs.subrange(n - j, n))),
            inv_l == spec_fp2_inv(spec_prefix(xs, (n - 1) as nat)),
            forall|j: int| 0 <= j < len ==> #[trigger] t1@[j] == spec_prefix(xs, j as nat),
            forall|j: int| 0 <= j < i ==> #[trigger] t2@[j] == spec_suffix(xs, inv_l, j as nat),
        decreases len - i,
    {
        let prev = t2[i - 1];
        let mut r = zero_fp2;
        fp2_mul(&mut r, &prev, &x[len - i]);
        t2.set(i, r);
        proof {
            if wf {
                let k = n - i;
                let tail = vs.subrange(k + 1, n);
                assert(vs[k] == fp2_value(xs[k]));
                assert(fp2_wf(xs[k]));
                assert(fp2_value(prev) == f2mul(inv, f2prod(tail)));
                crate::ext_spec::lemma_f2mul_assoc(inv, f2prod(tail), vs[k]);
                crate::ext_spec::lemma_f2mul_comm(f2prod(tail), vs[k]);
                let whole = vs.subrange(k, n);
                assert(whole.subrange(1, whole.len() as int) =~= tail);
                assert(whole[0] == vs[k]);
                crate::ext_spec::lemma_f2prod_front(whole);
            }
        }
        i += 1;
    }

    let mut c3 = zero_fp2;
    fp2_copy(&mut c3, &t2[len - 1]);
    x[0] = c3;
    proof {
        if wf {
            assert(vs.subrange(0, 0) =~= Seq::<(nat, nat)>::empty());
            assert(n - (n - 1) == 1);
            crate::ext_spec::lemma_f2mul_one(inv);
        }
    }
    let mut i: usize = 1;
    while i < len
        invariant
            1 <= i <= len,
            len == x@.len(),
            t1@.len() == len,
            t2@.len() == len,
            vs == fp2_values(xs),
            all_reduced(vs),
            vs.len() == n,
            n == len,
            xs.len() == n,
            wf == all_fp2_wf(xs),
            inv == f2inv(f2prod(vs)),
            inv.0 < modulus() && inv.1 < modulus(),
            wf ==> forall|j: int| 0 <= j < len ==> fp2_wf(#[trigger] t1@[j])
                && fp2_value(t1@[j]) == f2prod(vs.subrange(0, j + 1)),
            wf ==> forall|j: int| 0 <= j < len ==> fp2_wf(#[trigger] t2@[j])
                && fp2_value(t2@[j]) == f2mul(inv, f2prod(vs.subrange(n - j, n))),
            wf ==> forall|j: int| 0 <= j < i ==> fp2_wf(#[trigger] x@[j])
                && fp2_value(x@[j]) == batched_inv_value(vs, j),
            inv_l == spec_fp2_inv(spec_prefix(xs, (n - 1) as nat)),
            forall|j: int| 0 <= j < len ==> #[trigger] t1@[j] == spec_prefix(xs, j as nat),
            forall|j: int| 0 <= j < len ==> #[trigger] t2@[j] == spec_suffix(xs, inv_l, j as nat),
            forall|j: int| 0 <= j < i ==> #[trigger] x@[j] == spec_batched_inv(xs, j),
        decreases len - i,
    {
        let lhs = t1[i - 1];
        let rhs = t2[len - i - 1];
        let mut r = zero_fp2;
        fp2_mul(&mut r, &lhs, &rhs);
        x[i] = r;
        proof {
            if wf {
                assert(n - (n - i - 1) == i + 1);
                crate::ext_spec::lemma_f2prod_reduced(vs.subrange(0, i as int));
                crate::ext_spec::lemma_f2mul_assoc(f2prod(vs.subrange(0, i as int)), inv,
                    f2prod(vs.subrange(i + 1, n)));
            }
        }
        i += 1;
    }
    proof {
        if wf && (forall|i: int| 0 <= i < xs.len() ==> #[trigger] fp2_value(xs[i]) != (0nat, 0nat)) {
            assert forall|i: int| 0 <= i < vs.len() implies #[trigger] vs[i] != (0nat, 0nat) by {
                assert(vs[i] == fp2_value(xs[i]));
            }
            crate::fermat::lemma_f2prod_nonzero(vs);
            crate::ext_spec::lemma_f2prod_reduced(vs);
            crate::fermat::lemma_f2inv(f2prod(vs));
            assert forall|i: int| 0 <= i < xs.len() implies
                #[trigger] f2mul(fp2_value(x@[i]), fp2_value(xs[i])) == (1nat, 0nat) by {
                assert(vs[i] == fp2_value(xs[i]));
                crate::laws::law_fp2_batched_inv(vs, i);
            }
        }
    }
}

} // verus!
