//! Full reduction to the canonical residue, and the predicates built on it.
use vstd::prelude::*;
use crate::Fp;
use crate::field_spec::{canonical, fp_value, limbs_below, limbs_val, modulus, mont_r, mul_fits, w1, w2, w3, w4};
use crate::mont::{lemma_modmul_fp_value, modmul, spec_modmul};
use crate::reduce::{add64, lemma_fixup_value, lemma_prop_value, lemma_sval_is_val, limbs_signed_small, prop, spec_fixup, spec_prop, sub64, sval, P4};

verus! {

/// Propagate, add `p` back if the value went negative, propagate again;
/// the flag is `1` iff `p` was added back.
pub open spec fn spec_flatten(n: Fp) -> (Fp, i32) {
    let (m, carry) = spec_prop(n);
    (spec_prop(spec_fixup(m, carry, 1, P4)).0, (carry & 1) as i32)
}

/// Trial subtraction of `p` followed by `spec_flatten`.
#[verifier::opaque]
pub open spec fn spec_modfsb(n: Fp) -> (Fp, i32) {
    spec_flatten([(n[0] + 1) as u64, n[1], n[2], n[3], (n[4] - P4) as u64])
}

/// The positional residue of the Montgomery limbs `n`, for any limbs.
pub open spec fn spec_redc(n: Fp) -> Fp {
    spec_modfsb(spec_modmul(n, [1u64, 0u64, 0u64, 0u64, 0u64])).0
}

/// Propagate carries and add `p` back if the value went negative.
pub(crate) fn flatten(n: &mut Fp) -> (r: i32)
    ensures
        (*final(n), r) == spec_flatten(*old(n)),
{
    let carry = prop(n);
    n[0] = sub64(n[0], 1 & carry);
    n[4] = add64(n[4], P4 & carry);
    let _ = prop(n);
    (carry & 1) as i32
}

/// Subtract `p` if the value is at least `p`; return `1` iff it was below `p`.
pub(crate) fn modfsb(n: &mut Fp) -> (r: i32)
    ensures
        (*final(n), r) == spec_modfsb(*old(n)),
{
    n[0] = add64(n[0], 1);
    n[4] = sub64(n[4], P4);
    proof {
        reveal(spec_modfsb);
    }
    flatten(n)
}

/// `p` in the limb layout: `P4 * 2^204 - 1`.
pub proof fn lemma_p()
    ensures
        P4 * w4() - 1 == modulus(),
{
}

/// The final subtraction on limbs 0..=3 below `2^51` and a value below
/// `2^256`: the flag is `1` exactly when the value is below `p`, and the
/// result is the value, less `p` when it was at least `p`.
pub proof fn lemma_modfsb_value(n: Fp)
    requires
        n[0] < 0x8000000000000u64,
        n[1] < 0x8000000000000u64,
        n[2] < 0x8000000000000u64,
        n[3] < 0x8000000000000u64,
        limbs_val(n) < 0x10000000000000000000000000000000000000000000000000000000000000000,
    ensures
        ({
            let (c, r) = spec_modfsb(n);
            &&& c[0] < 0x8000000000000u64
            &&& c[1] < 0x8000000000000u64
            &&& c[2] < 0x8000000000000u64
            &&& c[3] < 0x8000000000000u64
            &&& (r == 1 <==> limbs_val(n) < modulus())
            &&& (r == 0 || r == 1)
            &&& limbs_val(c) == (if limbs_val(n) < modulus() { limbs_val(n) as int } else { limbs_val(n) - modulus() })
        }),
{
    reveal(spec_modfsb);
    let n0 = n[0];
    let n4 = n[4];
    assert(n4 < 0x10000000000000u64) by {
        assert(n4 * w4() <= limbs_val(n));
    }
    let t: Fp = [(n[0] + 1) as u64, n[1], n[2], n[3], (n[4] - P4) as u64];
    assert((n0 < 0x8000000000000u64 ==> ((n0 + 1) as u64) as i64 == n0 + 1)
        && (n4 < 0x10000000000000u64 ==> ((n4 - 0x500000000000u64) as u64) as i64 == n4 - 0x500000000000u64))
        by (bit_vector);
    assert(n[1] as i64 == n[1] as int && n[2] as i64 == n[2] as int && n[3] as i64 == n[3] as int);
    assert(limbs_signed_small(t));
    lemma_p();
    assert(sval(t) == limbs_val(n) - modulus());
    lemma_prop_value(t);
    let m = spec_prop(t).0;
    let carry = spec_prop(t).1;
    lemma_fixup_value(m, carry, 1, P4);
    let f = spec_fixup(m, carry, 1, P4);
    assert(sval(f) == (if limbs_val(n) < modulus() { limbs_val(n) as int } else { limbs_val(n) - modulus() }));
    lemma_prop_value(f);
    let c = spec_prop(f).0;
    assert((c[4] as i64) >= 0);
    lemma_sval_is_val(c);
    crate::bits::lemma_word_bits(carry, 0);
}

/// Any limbs spell an integer below `2^269`.
pub proof fn lemma_limbs_val_bound(n: Fp)
    ensures
        limbs_val(n) < 0x20000000000000000000000000000000000000000000000000000000000000000000,
{
    assert(n[1] * w1() < 0x10000000000000000 * w1());
    assert(n[2] * w2() < 0x10000000000000000 * w2());
    assert(n[3] * w3() < 0x10000000000000000 * w3());
    assert(n[4] * w4() < 0x10000000000000000 * w4());
}

/// The positional residue: for any limbs, `redc` gives the canonical
/// limbs of the field element that `n` stands for.
pub proof fn lemma_redc(n: Fp)
    ensures
        canonical(spec_redc(n)),
        limbs_val(spec_redc(n)) == fp_value(n),
{
    let one: Fp = [1u64, 0u64, 0u64, 0u64, 0u64];
    assert(limbs_below(one, 0x400000000000000));
    assert(mul_fits(n, one));
    assert(limbs_val(one) == 1);
    lemma_limbs_val_bound(n);
    assert(limbs_val(n) * limbs_val(one) < mont_r() * modulus());
    lemma_modmul_fp_value(n, one);
    let c = spec_modmul(n, one);
    assert(limbs_val(c) < 2 * modulus());
    lemma_modfsb_value(c);
    let m = spec_redc(n);
    assert(limbs_val(m) < modulus());
    assert(limbs_val(c) % modulus() == (limbs_val(n) * crate::field_spec::mont_r_inv()) % modulus());
    assert(limbs_val(m) == limbs_val(c) % modulus()) by {
        if limbs_val(c) >= modulus() {
            vstd::arithmetic::div_mod::lemma_mod_multiples_vanish(1, limbs_val(c) - modulus(), modulus() as int);
            vstd::arithmetic::div_mod::lemma_small_mod((limbs_val(c) - modulus()) as nat, modulus());
        } else {
            vstd::arithmetic::div_mod::lemma_small_mod(limbs_val(c), modulus());
        }
    }
    assert(m[4] < 0x8000000000000u64) by {
        assert(m[4] * w4() <= limbs_val(m));
    }
}

/// Convert Montgomery limbs to the canonical positional residue.
pub(crate) fn redc(n: &Fp) -> (m: Fp)
    ensures
        m == spec_redc(*n),
        canonical(m),
        limbs_val(m) == fp_value(*n),
{
    let c: Fp = [1, 0, 0, 0, 0];
    let mut m = modmul(n, &c);
    let _ = modfsb(&mut m);
    proof {
        lemma_redc(*n);
    }
    m
}

/// One radix-`2^51` digit is determined by the value.
pub proof fn lemma_digit_unique(x0: int, y0: int, rx: int, ry: int)
    requires
        0 <= x0 < 0x8000000000000,
        0 <= y0 < 0x8000000000000,
        x0 + 0x8000000000000 * rx == y0 + 0x8000000000000 * ry,
    ensures
        x0 == y0,
        rx == ry,
{
    if rx < ry {
        assert(0x8000000000000 * ry >= 0x8000000000000 * rx + 0x8000000000000);
    } else if rx > ry {
        assert(0x8000000000000 * rx >= 0x8000000000000 * ry + 0x8000000000000);
    }
}

/// Limbs that are all below `2^51` are determined by their value.
pub proof fn lemma_canonical_unique(x: Fp, y: Fp)
    requires
        limbs_below(x, 0x8000000000000),
        limbs_below(y, 0x8000000000000),
        limbs_val(x) == limbs_val(y),
    ensures
        x == y,
{
    let x1 = x[1] + x[2] * w1() + x[3] * w2() + x[4] * w3();
    let y1 = y[1] + y[2] * w1() + y[3] * w2() + y[4] * w3();
    assert(limbs_val(x) == x[0] + 0x8000000000000 * x1);
    assert(limbs_val(y) == y[0] + 0x8000000000000 * y1);
    lemma_digit_unique(x[0] as int, y[0] as int, x1, y1);
    let x2 = x[2] + x[3] * w1() + x[4] * w2();
    let y2 = y[2] + y[3] * w1() + y[4] * w2();
    lemma_digit_unique(x[1] as int, y[1] as int, x2, y2);
    let x3 = x[3] + x[4] * w1();
    let y3 = y[3] + y[4] * w1();
    lemma_digit_unique(x[2] as int, y[2] as int, x3, y3);
    lemma_digit_unique(x[3] as int, y[3] as int, x[4] as int, y[4] as int);
    assert(x =~= y);
}

/// The canonical limbs are all zero exactly when the value is zero.
pub proof fn lemma_zero_limbs(c: Fp)
    ensures
        (limbs_val(c) == 0) <==> (c[0] == 0 && c[1] == 0 && c[2] == 0 && c[3] == 0 && c[4] == 0),
{
}

/// `1` if the element is zero, else `0`.
pub(crate) fn modis0(a: &Fp) -> (r: u32)
    ensures
        r == (if fp_value(*a) == 0 { 1u32 } else { 0u32 }),
{
    let c = redc(a);
    let mut d: u64 = 0;
    let mut i: usize = 0;
    while i < 5
        invariant
            0 <= i <= 5,
            canonical(c),
            d < 0x8000000000000u64,
            (d == 0) <==> (forall|j: int| 0 <= j < i ==> c[j] == 0),
        decreases 5 - i,
    {
        let limb = c[i];
        proof {
            crate::bits::lemma_word_bits(d, limb);
        }
        d |= limb;
        i += 1;
    }
    let r = (1u64 & (sub64(d, 1) >> 51)) as u32;
    proof {
        crate::bits::lemma_word_bits(d, 0);
        lemma_zero_limbs(c);
        assert((d == 0) <==> (c[0] == 0 && c[1] == 0 && c[2] == 0 && c[3] == 0 && c[4] == 0));
    }
    r
}

/// `1` if a word below `2^51` is zero, else `0`, read off bit 51 of `x - 1`.
pub(crate) fn zero_bit(x: u64) -> (r: u32)
    requires
        x < 0x8000000000000u64,
    ensures
        r == (if x == 0 { 1u32 } else { 0u32 }),
{
    let b = (sub64(x, 1) >> 51) & 1;
    proof {
        crate::bits::lemma_word_bits(x, 0);
    }
    b as u32
}

/// `1` if the two elements are equal in the field, else `0`.
pub(crate) fn modcmp(a: &Fp, b: &Fp) -> (r: u32)
    ensures
        r == (if fp_value(*a) == fp_value(*b) { 1u32 } else { 0u32 }),
{
    let c = redc(a);
    let d = redc(b);
    let mut eq: u32 = 1;
    let mut i: usize = 0;
    while i < 5
        invariant
            0 <= i <= 5,
            canonical(c),
            canonical(d),
            eq == (if (forall|j: int| 0 <= j < i ==> c[j] == d[j]) { 1u32 } else { 0u32 }),
        decreases 5 - i,
    {
        let ci = c[i];
        let di = d[i];
        proof {
            assert(ci < 0x8000000000000u64 && di < 0x8000000000000u64);
            crate::bits::lemma_word_bits(ci, di);
        }
        let bit = zero_bit(ci ^ di);
        proof {
            crate::bits::lemma_u32_bits(eq, bit);
        }
        eq &= bit;
        i += 1;
    }
    proof {
        if fp_value(*a) == fp_value(*b) {
            lemma_canonical_unique(c, d);
        } else {
            if c =~= d {
                assert(false);
            }
            assert(exists|j: int| 0 <= j < 5 && c[j] != d[j]);
        }
    }
    eq
}

/// `1` if the element is the field's one, else `0`.
pub(crate) fn modis1(a: &Fp) -> (r: u32)
    ensures
        r == (if fp_value(*a) == 1 { 1u32 } else { 0u32 }),
{
    let c = redc(a);
    let mut d: u64 = 0;
    let mut i: usize = 1;
    while i < 5
        invariant
            1 <= i <= 5,
            canonical(c),
            d < 0x8000000000000u64,
            (d == 0) <==> (forall|j: int| 1 <= j < i ==> c[j] == 0),
        decreases 5 - i,
    {
        let limb = c[i];
        proof {
            crate::bits::lemma_word_bits(d, limb);
        }
        d |= limb;
        i += 1;
    }
    let c0 = c[0];
    let bit_d = (sub64(d, 1) >> 51) & 1;
    let bit_c0 = (sub64(c0 ^ 1, 1) >> 51) & 1;
    proof {
        crate::bits::lemma_word_bits(d, 0);
        crate::bits::lemma_word_bits(c0, 0);
        crate::bits::lemma_word_bits(bit_d, bit_c0);
        assert((d == 0) <==> (c[1] == 0 && c[2] == 0 && c[3] == 0 && c[4] == 0));
        assert((limbs_val(c) == 1) <==> (c[0] == 1 && c[1] == 0 && c[2] == 0 && c[3] == 0 && c[4] == 0)) by {
            if limbs_val(c) == 1 {
                lemma_canonical_unique(c, [1u64, 0u64, 0u64, 0u64, 0u64]);
            }
        }
    }
    (bit_d & bit_c0) as u32
}

} // verus!
