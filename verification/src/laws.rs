//! Laws of the library: properties that relate its operations, proved over
//! the specifications that the operations' contracts state.
use vstd::prelude::*;
use vstd::std_specs::cmp::PartialEqSpec;
use crate::{Fp, NWORDS_FIELD};
use crate::constants::{lemma_constants, MONTGOMERY_ONE, THREE_INV, TWO_INV};
use crate::exp::{exp_euler, exp_inv, exp_sqrt, fpow, spec_modinv, spec_modpro, spec_nsqr};
use crate::ext_spec::{f2mul, fmod, lemma_mod_ops};
use crate::field_spec::{fp_value, fp_wf, limbs_val, modulus, mont_r_inv};
use crate::fp::{equal_mask, spec_modint, zero_mask};
use crate::mont::{spec_modmul, spec_modsqr};
use crate::reduce::{spec_modadd, spec_modneg, spec_modsub};
use crate::select::{spec_cswap, spec_select};
use crate::codec::{byte_of, le_val};
use crate::ext_spec::{all_reduced, f2prod};
use crate::fp2::{batched_inv_value, f2inv, spec_fp2_inv, spec_fp2_mul, Fp2};

verus! {

/// Addition is commutative bit for bit, for any limbs.
pub proof fn law_fp_add_commutative(a: Fp, b: Fp)
    ensures
        spec_modadd(a, b) == spec_modadd(b, a),
{
    reveal(spec_modadd);
    assert(spec_modadd(a, b) =~= spec_modadd(b, a));
}

/// Multiplication is commutative bit for bit, for any limbs.
pub proof fn law_fp_mul_commutative(a: Fp, b: Fp)
    ensures
        spec_modmul(a, b) == spec_modmul(b, a),
{
    crate::mont::lemma_modmul_comm(a, b);
}

/// Squaring gives bit for bit the limbs of multiplying a value by itself,
/// for any limbs.
pub proof fn law_fp_sqr_is_mul(a: Fp)
    ensures
        spec_modsqr(a) == spec_modmul(a, a),
{
    crate::mont::lemma_sqr_is_mul(a);
}

/// `a - a` is the all-zero limbs, for any limbs.
pub proof fn law_fp_sub_self(a: Fp)
    ensures
        spec_modsub(a, a) == [0u64; NWORDS_FIELD],
{
    reveal(spec_modsub);
    let z: Fp = [0u64; NWORDS_FIELD];
    assert([(a[0] - a[0]) as u64, (a[1] - a[1]) as u64, (a[2] - a[2]) as u64, (a[3] - a[3]) as u64,
        (a[4] - a[4]) as u64] =~= z);
    lemma_fold_zero();
}

/// The negation of the all-zero limbs is the all-zero limbs.
pub proof fn law_fp_neg_zero()
    ensures
        spec_modneg([0u64; NWORDS_FIELD]) == [0u64; NWORDS_FIELD],
{
    reveal(spec_modneg);
    let z: Fp = [0u64; NWORDS_FIELD];
    assert([(0 - z[0]) as u64, (0 - z[1]) as u64, (0 - z[2]) as u64, (0 - z[3]) as u64,
        (0 - z[4]) as u64] =~= z);
    lemma_fold_zero();
}

/// Reducing the all-zero limbs leaves them.
proof fn lemma_fold_zero()
    ensures
        crate::reduce::spec_fold_2p([0u64; NWORDS_FIELD]) == [0u64; NWORDS_FIELD],
{
    let z: Fp = [0u64; NWORDS_FIELD];
    crate::reduce::lemma_prop_value(z);
    let (m, carry) = crate::reduce::spec_prop(z);
    assert(crate::reduce::sval(z) == 0);
    assert(carry == 0);
    crate::reduce::lemma_fixup_value(m, carry, 2, crate::reduce::TWO_P4);
    let f = crate::reduce::spec_fixup(m, carry, 2, crate::reduce::TWO_P4);
    crate::reduce::lemma_prop_value(f);
    let c = crate::reduce::spec_prop(f).0;
    assert((c[4] as i64) >= 0);
    crate::reduce::lemma_sval_is_val(c);
    assert(crate::field_spec::limbs_val(c) == 0);
    assert(c =~= z);
}

/// Negating twice gives back the element.
pub proof fn law_fp_neg_neg(a: Fp)
    requires
        fp_wf(a),
    ensures
        fp_value(spec_modneg(spec_modneg(a))) == fp_value(a),
{
    crate::reduce::lemma_modneg_value(a);
    crate::reduce::lemma_modneg_value(spec_modneg(a));
    let v = fp_value(a) as int;
    lemma_mod_ops(0, 0 - v);
    vstd::arithmetic::div_mod::lemma_small_mod(fp_value(a), modulus());
}

/// Subtracting and then adding back `b` gives back the element.
pub proof fn law_fp_sub_add(a: Fp, b: Fp)
    requires
        fp_wf(a),
        fp_wf(b),
    ensures
        fp_value(spec_modadd(spec_modsub(a, b), b)) == fp_value(a),
{
    crate::reduce::lemma_modsub_value(a, b);
    crate::reduce::lemma_modadd_value(spec_modsub(a, b), b);
    let x = fp_value(a) as int;
    let y = fp_value(b) as int;
    lemma_mod_ops(x - y, y);
    vstd::arithmetic::div_mod::lemma_small_mod(fp_value(b), modulus());
    vstd::arithmetic::div_mod::lemma_small_mod(fp_value(a), modulus());
}

/// Adding a half to itself gives back the element.
pub proof fn law_fp_half_double(a: Fp)
    requires
        fp_wf(a),
    ensures
        fp_value(spec_modadd(spec_modmul(TWO_INV, a), spec_modmul(TWO_INV, a))) == fp_value(a),
{
    let h = spec_modmul(TWO_INV, a);
    lemma_constants();
    crate::mont::lemma_wf_mul_fits(TWO_INV, a);
    crate::mont::lemma_modmul_fp_value(TWO_INV, a);
    crate::reduce::lemma_modadd_value(h, h);
    assert(fp_value(TWO_INV) * fp_value(a) == fp_value(a) * fp_value(TWO_INV)) by (nonlinear_arith);
    crate::fp::lemma_times_inverse(fp_value(a), fp_value(TWO_INV), 2);
}

/// Adding a third to itself three times gives back the element.
pub proof fn law_fp_div3_triple(a: Fp)
    requires
        fp_wf(a),
    ensures
        ({
            let d = spec_modmul(THREE_INV, a);
            fp_value(spec_modadd(spec_modadd(d, d), d)) == fp_value(a)
        }),
{
    let d = spec_modmul(THREE_INV, a);
    lemma_constants();
    crate::mont::lemma_wf_mul_fits(THREE_INV, a);
    crate::mont::lemma_modmul_fp_value(THREE_INV, a);
    crate::reduce::lemma_modadd_value(d, d);
    crate::reduce::lemma_modadd_value(spec_modadd(d, d), d);
    assert(fp_value(THREE_INV) * fp_value(a) == fp_value(a) * fp_value(THREE_INV)) by (nonlinear_arith);
    crate::fp::lemma_times_inverse(fp_value(a), fp_value(THREE_INV), 3);
    let v = fp_value(d) as int;
    lemma_mod_ops(v + v, v);
    vstd::arithmetic::div_mod::lemma_small_mod(fp_value(d), modulus());
}

/// Equality in the field is reflexive and symmetric, its answer is always
/// one of the two masks, and it is all ones exactly when the two limb
/// integers are congruent modulo `p` (the same field element).
pub proof fn law_fp_is_equal(a: Fp, b: Fp)
    ensures
        equal_mask(a, a) == 0xffffffffu32,
        equal_mask(a, b) == equal_mask(b, a),
        equal_mask(a, b) == 0xffffffffu32 || equal_mask(a, b) == 0u32,
        equal_mask(a, b) == 0xffffffffu32 <==> fp_value(a) == fp_value(b),
        equal_mask(a, b) == 0xffffffffu32
            <==> (limbs_val(a) - limbs_val(b)) % (modulus() as int) == 0,
{
    lemma_limbs_congruent(limbs_val(a) as int, limbs_val(b) as int);
}

/// The zero test answers with one of the two masks, all ones exactly when
/// the limb integer is a multiple of `p` (the field zero), so all ones on
/// the all-zero limbs.
pub proof fn law_fp_is_zero(a: Fp)
    ensures
        zero_mask(a) == 0xffffffffu32 || zero_mask(a) == 0u32,
        zero_mask(a) == 0xffffffffu32 <==> fp_value(a) == 0,
        zero_mask(a) == 0xffffffffu32 <==> limbs_val(a) % modulus() == 0,
        zero_mask([0u64; NWORDS_FIELD]) == 0xffffffffu32,
{
    assert(limbs_val([0u64; NWORDS_FIELD]) == 0);
    lemma_limbs_congruent(limbs_val(a) as int, 0);
    vstd::arithmetic::div_mod::lemma_small_mod(0, modulus());
}

/// Two Montgomery integers stand for the same element exactly when they are
/// congruent modulo `p`: `R^-1` is not zero modulo the prime `p`.
proof fn lemma_limbs_congruent(x: int, y: int)
    ensures
        ((x * mont_r_inv()) % (modulus() as int) == (y * mont_r_inv()) % (modulus() as int))
            <==> (x - y) % (modulus() as int) == 0,
{
    let m = modulus() as int;
    let ri = mont_r_inv() as int;
    assert((x - y) * ri == x * ri - y * ri) by (nonlinear_arith);
    vstd::arithmetic::div_mod::lemma_sub_mod_noop(x * ri, y * ri, m);
    vstd::arithmetic::div_mod::lemma_small_mod(0, modulus());
    let dx = (x * ri) % m;
    let dy = (y * ri) % m;
    if dx == dy {
        assert(((x - y) * ri) % m == 0);
        crate::certificate::lemma_modulus_prime();
        crate::prime::lemma_euclid(modulus(), x - y, ri);
        vstd::arithmetic::div_mod::lemma_small_mod(mont_r_inv(), modulus());
    }
    if (x - y) % m == 0 {
        vstd::arithmetic::div_mod::lemma_mul_mod_noop_left(x - y, ri, m);
        assert(0 * ri == 0);
        assert(((x - y) * ri) % m == 0);
        // dx - dy is a multiple of p in (-p, p)
        assert((dx - dy) % m == 0);
        if dx != dy {
            if dx > dy {
                vstd::arithmetic::div_mod::lemma_small_mod((dx - dy) as nat, modulus());
            } else {
                vstd::arithmetic::div_mod::lemma_fundamental_div_mod_converse(dx - dy, m, -1, m + dx - dy);
            }
        }
    }
}

/// Selection blends bit by bit: each limb of the result takes the bits of
/// `a1` where the sign-extended control is set and those of `a0` elsewhere,
/// so a control of `0` gives `a0` and `0xFFFFFFFF` gives `a1`.
pub proof fn law_fp_select_blend(a0: Fp, a1: Fp, ctl: u32, i: int)
    requires
        0 <= i < 5,
    ensures
        spec_select(a0, a1, ctl)[i] == (a0[i] & !(((ctl as i32) as i64) as u64)) | (a1[i] & (((ctl as i32) as i64) as u64)),
        ctl == 0 ==> spec_select(a0, a1, ctl) == a0,
        ctl == 0xffffffffu32 ==> spec_select(a0, a1, ctl) == a1,
{
    let cw = ((ctl as i32) as i64) as u64;
    let x = a0[i];
    let y = a1[i];
    assert(x ^ (cw & (x ^ y)) == (x & !cw) | (y & cw)) by (bit_vector);
    assert(ctl == 0 ==> cw == 0u64) by (bit_vector)
        requires cw == ((ctl as i32) as i64) as u64;
    assert(ctl == 0xffffffffu32 ==> cw == 0xffffffffffffffffu64) by (bit_vector)
        requires cw == ((ctl as i32) as i64) as u64;
    assert forall|z: u64, w: u64| #[trigger] (z ^ (0u64 & (z ^ w))) == z by {
        assert((z ^ (0u64 & (z ^ w))) == z) by (bit_vector);
    }
    assert forall|z: u64, w: u64| #[trigger] (z ^ (0xffffffffffffffffu64 & (z ^ w))) == w by {
        assert((z ^ (0xffffffffffffffffu64 & (z ^ w))) == w) by (bit_vector);
    }
    if ctl == 0 {
        assert(spec_select(a0, a1, ctl) =~= a0);
    }
    if ctl == 0xffffffffu32 {
        assert(spec_select(a0, a1, ctl) =~= a1);
    }
}

/// Setting a small integer reads only its low 32 bits: `val` and
/// `val as i32 as u64` give the same limbs.
pub proof fn law_fp_set_small_narrowing(val: u64)
    ensures
        spec_modint(val as i32) == spec_modint((((val as i32) as i64) as u64) as i32),
{
    crate::bits::lemma_narrowing(val);
}

/// Setting zero gives the all-zero limbs and setting one gives exactly the
/// limbs of `fp_set_one`.
pub proof fn law_fp_set_small_zero_one()
    ensures
        spec_modint(0) == [0u64; NWORDS_FIELD],
        spec_modint(1) == MONTGOMERY_ONE,
{
    crate::fp::lemma_modint_zero([0u64; NWORDS_FIELD]);
    crate::fp::lemma_modint_one();
}

/// Multiplying by the small integer zero gives the all-zero limbs, by one
/// gives bit for bit `fp_mul(a, ONE)`, and by `val` gives bit for bit
/// `fp_mul(a, fp_set_small(val as i32 as u64))`; for any limbs.
pub proof fn law_fp_mul_small(a: Fp, val: u32)
    ensures
        spec_modmul(a, spec_modint(0)) == [0u64; NWORDS_FIELD],
        spec_modmul(a, spec_modint(1)) == spec_modmul(a, MONTGOMERY_ONE),
        spec_modmul(a, spec_modint(val as i32)) == spec_modmul(a, spec_modint((((val as i32) as i64) as u64) as i32)),
{
    crate::fp::lemma_modint_zero(a);
    crate::fp::lemma_modint_one();
    crate::bits::lemma_narrowing(val as u64);
    assert((val as u64) as i32 == val as i32) by {
        crate::bits::lemma_narrowing_u32(val);
    }
}

/// Swapping twice with the same control restores both operands.
pub proof fn law_fp_cswap_twice(a: Fp, b: Fp, ctl: u32)
    ensures
        ({
            let (a1, b1) = spec_cswap(a, b, ctl);
            spec_cswap(a1, b1, ctl) == (a, b)
        }),
{
}

/// The conditional swap reads only the low bit of its control.
pub proof fn law_fp_cswap_low_bit(a: Fp, b: Fp, ctl: u32)
    ensures
        spec_cswap(a, b, ctl) == spec_cswap(a, b, ctl & 1),
{
    assert((ctl & 1) & 1 == ctl & 1) by (bit_vector);
}

/// A square root of a square: when `a` is zero or `a^((p-1)/2)` is one,
/// `a^((p+1)/4)` squared is `a`.
pub proof fn law_fp_sqrt_of_square(a: Fp)
    requires
        fp_wf(a),
        fpow(fp_value(a), exp_euler()) == 1 || fp_value(a) == 0,
    ensures
        (fpow(fp_value(a), exp_sqrt()) * fpow(fp_value(a), exp_sqrt())) % modulus() == fp_value(a),
{
    let v = fp_value(a);
    let m = modulus() as int;
    let s = vstd::arithmetic::power::pow(v as int, exp_sqrt());
    vstd::arithmetic::div_mod::lemma_mul_mod_noop(s, s, m);
    vstd::arithmetic::power::lemma_pow_adds(v as int, exp_sqrt(), exp_sqrt());
    assert(exp_sqrt() + exp_sqrt() == exp_euler() + 1);
    vstd::arithmetic::power::lemma_pow_adds(v as int, exp_euler(), 1);
    vstd::arithmetic::power::lemma_pow1(v as int);
    let e = vstd::arithmetic::power::pow(v as int, exp_euler());
    vstd::arithmetic::div_mod::lemma_mul_mod_noop(e, v as int, m);
    vstd::arithmetic::div_mod::lemma_small_mod(v, modulus());
    if v == 0 {
        vstd::arithmetic::power::lemma0_pow(exp_euler());
        assert(e * 0 == 0);
    } else {
        assert((e % m) == 1);
        assert((1 * ((v as int) % m)) % m == v);
    }
}

/// The inverse times the element is one, for every non-zero element
/// (Fermat's little theorem, with `p` proved prime).
pub proof fn law_fp_inv_times(a: Fp)
    requires
        fp_wf(a),
        fp_value(a) != 0,
    ensures
        (fpow(fp_value(a), exp_inv()) * fp_value(a)) % modulus() == 1,
        fpow(fp_value(a), (modulus() - 1) as nat) == 1,
{
    crate::fermat::lemma_fermat_p(fp_value(a));
}

/// Inverting zero gives zero: the all-zero limbs give the all-zero limbs,
/// and the field value zero gives zero.
pub proof fn law_fp_inv_zero()
    ensures
        spec_modinv([0u64; NWORDS_FIELD], spec_modpro([0u64; NWORDS_FIELD])) == [0u64; NWORDS_FIELD],
        fpow(0, exp_inv()) == 0,
{
    let z: Fp = [0u64; NWORDS_FIELD];
    let t = spec_nsqr(spec_modpro(z), 2);
    crate::mont::lemma_modmul_comm(z, t);
    crate::fp::lemma_modint_zero(t);
    vstd::arithmetic::power::lemma0_pow(exp_inv());
}

/// Inverting zero in GF(p^2) gives zero: the all-zero pair gives the
/// all-zero pair, and the value `(0, 0)` gives `(0, 0)`.
pub proof fn law_fp2_inv_zero()
    ensures
        spec_fp2_inv(Fp2 { re: [0u64; NWORDS_FIELD], im: [0u64; NWORDS_FIELD] })
            == (Fp2 { re: [0u64; NWORDS_FIELD], im: [0u64; NWORDS_FIELD] }),
        f2inv((0nat, 0nat)) == (0nat, 0nat),
{
    let z: Fp = [0u64; NWORDS_FIELD];
    let x = Fp2 { re: z, im: z };
    let n = crate::fp2::spec_norm(x);
    let ninv = spec_modinv(n, spec_modpro(n));
    crate::mont::lemma_modmul_comm(z, ninv);
    crate::fp::lemma_modint_zero(ninv);
    law_fp_neg_zero();
    law_fp_inv_zero();
    let v = (0nat, 0nat);
    assert(v.0 * v.0 + v.1 * v.1 == 0);
    assert(fmod(0) == 0);
    let ni = fpow(fmod((v.0 * v.0 + v.1 * v.1) as int), exp_inv());
    assert(ni == 0);
    assert(v.0 * ni == 0 && v.1 * ni == 0);
    assert((0nat % modulus()) == 0);
}

/// Decoding the encoding gives back the element: the 32 bytes
/// `fp_encode` writes spell the element's residue, which is below `p`.
pub proof fn law_fp_encode_decode(a: Fp)
    ensures
        ({
            let v = fp_value(a);
            let bytes = Seq::new(32, |j: int| byte_of(v, j as nat));
            le_val(bytes) == v && v < modulus()
        }),
{
    let v = fp_value(a);
    let bytes = Seq::new(32, |j: int| byte_of(v, j as nat));
    crate::codec::lemma_limbs_v_bound(v);
    crate::codec::lemma_le_val_of_bytes(v, bytes);
}

/// Encoding what was decoded gives back the bytes: the bytes of the value
/// that 32 bytes spell are those bytes.
pub proof fn law_fp_decode_encode(bytes: Seq<u8>)
    requires
        bytes.len() == 32,
    ensures
        forall|j: int| 0 <= j < 32 ==> #[trigger] byte_of(le_val(bytes), j as nat) == bytes[j],
{
    assert forall|j: int| 0 <= j < 32 implies #[trigger] byte_of(le_val(bytes), j as nat) == bytes[j] by {
        crate::codec::lemma_byte_of_le_val(bytes, j as nat);
    }
}

/// Multiplication in GF(p^2) is commutative bit for bit, for any limbs.
pub proof fn law_fp2_mul_commutative(y: Fp2, z: Fp2)
    ensures
        spec_fp2_mul(y, z) == spec_fp2_mul(z, y),
{
    let t0 = spec_modadd(y.re, y.im);
    let t1 = spec_modadd(z.re, z.im);
    crate::mont::lemma_modmul_comm(t0, t1);
    crate::mont::lemma_modmul_comm(y.im, z.im);
    crate::mont::lemma_modmul_comm(y.re, z.re);
}

/// Each output of the batched inversion times its input is the same
/// element: the inverse of the whole product times the product, which is
/// one when no element is zero (`fp2_batched_inv`'s contract).
pub proof fn law_fp2_batched_inv(vs: Seq<(nat, nat)>, i: int)
    requires
        all_reduced(vs),
        0 <= i < vs.len(),
    ensures
        f2mul(batched_inv_value(vs, i), vs[i]) == f2mul(f2inv(f2prod(vs)), f2prod(vs)),
{
    let n = vs.len() as int;
    let a = f2prod(vs.subrange(0, i));
    let b = f2prod(vs.subrange(i + 1, n));
    let v = vs[i];
    let inv = f2inv(f2prod(vs));
    assert(vs =~= vs.subrange(0, i) + vs.subrange(i, n));
    crate::ext_spec::lemma_f2prod_append(vs.subrange(0, i), vs.subrange(i, n));
    let tail = vs.subrange(i, n);
    assert(tail.subrange(1, tail.len() as int) =~= vs.subrange(i + 1, n));
    assert forall|k: int| 0 <= k < tail.len() implies (#[trigger] tail[k]).0 < modulus() && tail[k].1 < modulus() by {
        assert(tail[k] == vs[i + k]);
    }
    crate::ext_spec::lemma_f2prod_front(tail);
    crate::ext_spec::lemma_f2mul_assoc(f2mul(a, inv), b, v);
    crate::ext_spec::lemma_f2mul_comm(b, v);
    crate::ext_spec::lemma_f2mul_assoc(f2mul(a, inv), v, b);
    crate::ext_spec::lemma_f2mul_assoc(a, inv, v);
    crate::ext_spec::lemma_f2mul_comm(inv, v);
    crate::ext_spec::lemma_f2mul_assoc(a, v, inv);
    crate::ext_spec::lemma_f2mul_comm(f2mul(a, v), inv);
    crate::ext_spec::lemma_f2mul_assoc(inv, f2mul(a, v), b);
    crate::ext_spec::lemma_f2mul_assoc(a, v, b);
}

/// Equality of GF(p^2) elements compares both halves limb for limb: `==`
/// on `Fp2` obeys its specification, and that specification holds exactly
/// when the two elements are the same value (both `re` and `im` equal).
pub proof fn law_fp2_eq(x: Fp2, y: Fp2)
    ensures
        Fp2::obeys_eq_spec(),
        x.eq_spec(&y) <==> x == y,
        x.eq_spec(&y) <==> (x.re == y.re && x.im == y.im),
{
    if x.eq_spec(&y) {
        assert(x.re =~= y.re);
        assert(x.im =~= y.im);
    }
}

} // verus!
