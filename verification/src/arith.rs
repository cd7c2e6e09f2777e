//! Generic arithmetic lemmas: the radix-2^51 product expansion.
use vstd::prelude::*;
use vstd::arithmetic::mul::*;

verus! {

pub proof fn lemma_row(x: int, b0: int, b1: int, b2: int, b3: int, b4: int)
    ensures
        x * (b0 + b1 * 2251799813685248 + b2 * 5070602400912917605986812821504 + b3 * 11417981541647679048466287755595961091061972992 + b4 * 25711008708143844408671393477458601640355247900524685364822016)
        == x * b0 + (x * b1) * 2251799813685248 + (x * b2) * 5070602400912917605986812821504 + (x * b3) * 11417981541647679048466287755595961091061972992 + (x * b4) * 25711008708143844408671393477458601640355247900524685364822016,
{
    let w1: int = 2251799813685248int;
    let w2: int = 5070602400912917605986812821504int;
    let w3: int = 11417981541647679048466287755595961091061972992int;
    let w4: int = 25711008708143844408671393477458601640355247900524685364822016int;
    lemma_mul_is_distributive_add(x, b0 + b1 * w1 + b2 * w2 + b3 * w3, b4 * w4);
    lemma_mul_is_distributive_add(x, b0 + b1 * w1 + b2 * w2, b3 * w3);
    lemma_mul_is_distributive_add(x, b0 + b1 * w1, b2 * w2);
    lemma_mul_is_distributive_add(x, b0, b1 * w1);
    lemma_mul_is_associative(x, b1, w1);
    lemma_mul_is_associative(x, b2, w2);
    lemma_mul_is_associative(x, b3, w3);
    lemma_mul_is_associative(x, b4, w4);
}

} // verus!
verus! {
pub proof fn lemma_scale(x: int, y: int, c: int)
    ensures (x * c) * y == c * (x * y),
{
    assert((x * c) * y == c * (x * y)) by (nonlinear_arith);
}

pub proof fn lemma_prod_columns(a0: int, a1: int, a2: int, a3: int, a4: int, b0: int, b1: int, b2: int, b3: int, b4: int)
    ensures
        (a0 + a1 * 2251799813685248 + a2 * 5070602400912917605986812821504 + a3 * 11417981541647679048466287755595961091061972992 + a4 * 25711008708143844408671393477458601640355247900524685364822016)
        * (b0 + b1 * 2251799813685248 + b2 * 5070602400912917605986812821504 + b3 * 11417981541647679048466287755595961091061972992 + b4 * 25711008708143844408671393477458601640355247900524685364822016)
        == a0 * b0
         + (a0 * b1 + a1 * b0) * 2251799813685248
         + (a0 * b2 + a1 * b1 + a2 * b0) * 5070602400912917605986812821504
         + (a0 * b3 + a1 * b2 + a2 * b1 + a3 * b0) * 11417981541647679048466287755595961091061972992
         + (a0 * b4 + a1 * b3 + a2 * b2 + a3 * b1 + a4 * b0) * 25711008708143844408671393477458601640355247900524685364822016
         + (a1 * b4 + a2 * b3 + a3 * b2 + a4 * b1) * 57896044618658097711785492504343953926634992332820282019728792003956564819968
         + (a2 * b4 + a3 * b3 + a4 * b2) * 130370302485407109521180524058200202307293977194619920040712988758680403184853549195737432064
         + (a3 * b4 + a4 * b3) * 293567822846729153486185074598667128421960318613539983838411371441526128139326055432962374798096087878991872
         + (a4 * b4) * 661055968790248598951915308032771039828404682964281219284648795274405791236311345825189210439715284847591212025023358304256,
{
    let w1: int = 2251799813685248int;
    let w2: int = 5070602400912917605986812821504int;
    let w3: int = 11417981541647679048466287755595961091061972992int;
    let w4: int = 25711008708143844408671393477458601640355247900524685364822016int;
    let bb = b0 + b1 * w1 + b2 * w2 + b3 * w3 + b4 * w4;
    lemma_mul_is_distributive_add_other_way(bb, a0 + a1 * w1 + a2 * w2 + a3 * w3, a4 * w4);
    lemma_mul_is_distributive_add_other_way(bb, a0 + a1 * w1 + a2 * w2, a3 * w3);
    lemma_mul_is_distributive_add_other_way(bb, a0 + a1 * w1, a2 * w2);
    lemma_mul_is_distributive_add_other_way(bb, a0, a1 * w1);
    lemma_scale(a1, bb, w1);
    lemma_scale(a2, bb, w2);
    lemma_scale(a3, bb, w3);
    lemma_scale(a4, bb, w4);
    assert(a0 * bb + (a1 * w1) * bb + (a2 * w2) * bb + (a3 * w3) * bb + (a4 * w4) * bb
        == a0 * bb + w1 * (a1 * bb) + w2 * (a2 * bb) + w3 * (a3 * bb) + w4 * (a4 * bb));
    lemma_row(a0, b0, b1, b2, b3, b4);
    lemma_row(a1, b0, b1, b2, b3, b4);
    lemma_row(a2, b0, b1, b2, b3, b4);
    lemma_row(a3, b0, b1, b2, b3, b4);
    lemma_row(a4, b0, b1, b2, b3, b4);
}
} // verus!

verus! {

/// Montgomery reduction modulo `m`: if `c * r == t + q * m` and `r * ri == 1 (mod m)`,
/// then `c * ri == t * ri * ri (mod m)`.
pub proof fn lemma_mont_reduce(c: int, t: int, q: int, m: int, r: int, ri: int)
    requires
        m > 0,
        (r * ri) % m == 1,
        c * r == t + q * m,
    ensures
        (c * ri) % m == (t * ri * ri) % m,
{
    vstd::arithmetic::div_mod::lemma_mul_mod_noop_right(c * ri, r * ri, m);
    assert((c * ri) * ((r * ri) % m) == c * ri);
    assert((c * ri) * (r * ri) == (c * r) * (ri * ri)) by (nonlinear_arith);
    assert((c * r) * (ri * ri) == m * (q * ri * ri) + t * ri * ri) by (nonlinear_arith)
        requires c * r == t + q * m;
    vstd::arithmetic::div_mod::lemma_mod_multiples_vanish(q * ri * ri, t * ri * ri, m);
}

/// Reducing both factors first does not change a product modulo `m`:
/// `((a * ri) % m) * ((b * ri) % m) == a * b * ri * ri (mod m)`.
pub proof fn lemma_mont_product(a: int, b: int, m: int, ri: int)
    requires
        m > 0,
    ensures
        (((a * ri) % m) * ((b * ri) % m)) % m == (a * b * ri * ri) % m,
{
    vstd::arithmetic::div_mod::lemma_mul_mod_noop(a * ri, b * ri, m);
    assert((a * ri) * (b * ri) == a * b * ri * ri) by (nonlinear_arith);
}

} // verus!
