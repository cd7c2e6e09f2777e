//! The mathematical model of a GF(p) element held in limbs.
use vstd::prelude::*;
use crate::Fp;

verus! {

/// The field characteristic `p = 5 * 2^248 - 1`.
pub open spec fn modulus() -> nat {
    2261564242916331941866620800950935700259179388000792266395655937654553313279nat
}

/// `2^51`, the weight of limb 1.
pub open spec fn w1() -> nat { 2251799813685248nat }

/// `2^102`, the weight of limb 2.
pub open spec fn w2() -> nat { 5070602400912917605986812821504nat }

/// `2^153`, the weight of limb 3.
pub open spec fn w3() -> nat { 11417981541647679048466287755595961091061972992nat }

/// `2^204`, the weight of limb 4.
pub open spec fn w4() -> nat { 25711008708143844408671393477458601640355247900524685364822016nat }

/// The Montgomery radix `R = 2^255`.
pub open spec fn mont_r() -> nat {
    57896044618658097711785492504343953926634992332820282019728792003956564819968nat
}

/// `R^-1 mod p`.
pub open spec fn mont_r_inv() -> nat {
    88342353238919216479164875037145925791374194843780947906080310064630988800nat
}

/// The integer the five limbs spell out in radix `2^51` (no bound on a limb).
pub open spec fn limbs_val(a: Fp) -> nat {
    a[0] as nat + a[1] as nat * w1() + a[2] as nat * w2() + a[3] as nat * w3() + a[4] as nat * w4()
}

/// The field element, in `[0, p)`, that the Montgomery limbs `a` stand for:
/// `limbs_val(a) * R^-1 mod p`.
pub open spec fn fp_value(a: Fp) -> nat {
    (limbs_val(a) * mont_r_inv()) % modulus()
}

/// The bound the arithmetic keeps: limbs 0..=3 below `2^51` and the whole
/// value below `2p` (limb 4 is left unmasked).
pub open spec fn fp_wf(a: Fp) -> bool {
    &&& a[0] < 0x8000000000000u64
    &&& a[1] < 0x8000000000000u64
    &&& a[2] < 0x8000000000000u64
    &&& a[3] < 0x8000000000000u64
    &&& limbs_val(a) < 2 * modulus()
}

/// A fully reduced positional residue: every limb below `2^51`, value below `p`.
pub open spec fn canonical(a: Fp) -> bool {
    &&& a[0] < 0x8000000000000u64
    &&& a[1] < 0x8000000000000u64
    &&& a[2] < 0x8000000000000u64
    &&& a[3] < 0x8000000000000u64
    &&& a[4] < 0x8000000000000u64
    &&& limbs_val(a) < modulus()
}

/// Every limb of `a` is below `bound`.
pub open spec fn limbs_below(a: Fp, bound: nat) -> bool {
    &&& a[0] < bound
    &&& a[1] < bound
    &&& a[2] < bound
    &&& a[3] < bound
    &&& a[4] < bound
}

/// The limb sizes under which Montgomery multiplication never wraps its
/// 128-bit accumulator: every limb product is at most `2^122`.
pub open spec fn mul_fits(a: Fp, b: Fp) -> bool {
    ||| (limbs_below(a, 0x2000000000000000) && limbs_below(b, 0x2000000000000000))
    ||| limbs_below(b, 0x400000000000000)
    ||| limbs_below(a, 0x400000000000000)
}

/// `R * R^-1 == 1 (mod p)`.
pub proof fn lemma_r_inv()
    ensures
        (mont_r() * mont_r_inv()) % modulus() == 1,
{
    assert((mont_r() * mont_r_inv()) % modulus() == 1);
}

/// The field element that the Montgomery integer `x` stands for:
/// `x * R^-1 mod p`, for any integer `x`.
pub open spec fn mont_value(x: int) -> int {
    (x * mont_r_inv()) % (modulus() as int)
}

/// `fp_value` is `mont_value` of the limbs' integer.
pub proof fn lemma_fp_value_is_mont(a: Fp)
    ensures
        fp_value(a) as int == mont_value(limbs_val(a) as int),
{
}

/// Adding a multiple of `p` does not change the field element.
pub proof fn lemma_mont_value_shift(x: int, k: int)
    ensures
        mont_value(x + k * modulus()) == mont_value(x),
{
    let m = modulus() as int;
    let ri = mont_r_inv() as int;
    assert((x + k * m) * ri == m * (k * ri) + x * ri) by (nonlinear_arith);
    vstd::arithmetic::div_mod::lemma_mod_multiples_vanish(k * ri, x * ri, m);
}

/// The field element of a sum is the sum of the field elements.
pub proof fn lemma_mont_value_add(x: int, y: int)
    ensures
        mont_value(x + y) == (mont_value(x) + mont_value(y)) % (modulus() as int),
{
    let m = modulus() as int;
    let ri = mont_r_inv() as int;
    assert((x + y) * ri == x * ri + y * ri) by (nonlinear_arith);
    vstd::arithmetic::div_mod::lemma_add_mod_noop(x * ri, y * ri, m);
}

/// The field element of a difference is the difference of the field elements.
pub proof fn lemma_mont_value_sub(x: int, y: int)
    ensures
        mont_value(x - y) == (mont_value(x) - mont_value(y)) % (modulus() as int),
{
    let m = modulus() as int;
    let ri = mont_r_inv() as int;
    assert((x - y) * ri == x * ri - y * ri) by (nonlinear_arith);
    vstd::arithmetic::div_mod::lemma_sub_mod_noop(x * ri, y * ri, m);
}

/// A well-formed element has limb 4 below `2^48`, and all limbs below `2^52`.
pub proof fn lemma_wf_limbs(a: Fp)
    requires
        fp_wf(a),
    ensures
        a[4] < 0xa00000000000u64,
        limbs_below(a, 0x8000000000000),
{
}

} // verus!
