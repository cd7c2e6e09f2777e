//! Fixed exponentiations: the addition chain for `x^((p-3)/4)`, and the
//! inverse, square root and quadratic-residue test built on it.
use vstd::prelude::*;
use vstd::arithmetic::power::{lemma_pow1, lemma_pow_adds, pow};
use vstd::arithmetic::power2::{lemma2_to64, pow2};
use crate::{Fp, NWORDS_FIELD};
use crate::field_spec::{fp_value, fp_wf, modulus};
use crate::canon::{modis0, modis1};
use crate::mont::{lemma_modmul_fp_value, lemma_sqr_is_mul, lemma_wf_mul_fits, modmul, modsqr, spec_modmul, spec_modsqr};

verus! {

/// `x^e mod p`.
pub open spec fn fpow(x: nat, e: nat) -> nat {
    (pow(x as int, e) % (modulus() as int)) as nat
}

/// The exponent of the chain: `(p - 3) / 4`.
pub open spec fn exp_3div4() -> nat {
    565391060729082985466655200237733925064794847000198066598913984413638328319nat
}

/// `(p - 3) / 4` is what `exp_3div4` spells.
pub proof fn lemma_exp_3div4()
    ensures
        4 * exp_3div4() + 3 == modulus(),
{
}

/// Multiplying two powers of `x` adds the exponents.
pub proof fn lemma_fpow_mul(a: Fp, b: Fp, x: nat, ea: nat, eb: nat)
    requires
        fp_wf(a),
        fp_wf(b),
        fp_value(a) == fpow(x, ea),
        fp_value(b) == fpow(x, eb),
    ensures
        fp_wf(spec_modmul(a, b)),
        fp_value(spec_modmul(a, b)) == fpow(x, ea + eb),
{
    let m = modulus() as int;
    lemma_wf_mul_fits(a, b);
    lemma_modmul_fp_value(a, b);
    vstd::arithmetic::div_mod::lemma_mul_mod_noop(pow(x as int, ea), pow(x as int, eb), m);
    lemma_pow_adds(x as int, ea, eb);
}

/// Squaring a power of `x` doubles the exponent.
pub proof fn lemma_fpow_sqr(a: Fp, x: nat, e: nat)
    requires
        fp_wf(a),
        fp_value(a) == fpow(x, e),
    ensures
        fp_wf(spec_modsqr(a)),
        fp_value(spec_modsqr(a)) == fpow(x, 2 * e),
{
    lemma_sqr_is_mul(a);
    lemma_fpow_mul(a, a, x, e, e);
}

/// Any element is its own first power.
pub proof fn lemma_fpow_one(a: Fp)
    requires
        fp_wf(a),
    ensures
        fp_value(a) == fpow(fp_value(a), 1),
{
    lemma_pow1(fp_value(a) as int);
    vstd::arithmetic::div_mod::lemma_small_mod(fp_value(a), modulus());
}

/// The limbs of `n` successive squarings, for any limbs.
pub open spec fn spec_nsqr(a: Fp, n: int) -> Fp
    decreases n,
{
    if n <= 0 {
        a
    } else {
        spec_modsqr(spec_nsqr(a, n - 1))
    }
}

/// Square `a` in place `n` times.
pub(crate) fn modnsqr(a: &mut Fp, n: i32)
    ensures
        *final(a) == spec_nsqr(*old(a), n as int),
        fp_wf(*old(a)) && n >= 0 ==> fp_wf(*final(a))
            && fp_value(*final(a)) == fpow(fp_value(*old(a)), pow2(n as nat)),
{
    let ghost v0 = fp_value(*a);
    proof {
        if fp_wf(*a) {
            lemma_fpow_one(*a);
            vstd::arithmetic::power2::lemma2_to64();
        }
    }
    let mut i: i32 = 0;
    while i < n
        invariant
            0 <= i,
            i <= n || i == 0,
            *a == spec_nsqr(*old(a), i as int),
            fp_wf(*old(a)) ==> fp_wf(*a) && fp_value(*a) == fpow(v0, pow2(i as nat)),
            v0 == fp_value(*old(a)),
        decreases n - i,
    {
        let tmp = modsqr(a);
        proof {
            if fp_wf(*old(a)) {
                lemma_fpow_sqr(*a, v0, pow2(i as nat));
                vstd::arithmetic::power2::lemma_pow2_unfold((i + 1) as nat);
            }
        }
        *a = tmp;
        i += 1;
    }
    proof {
        if n < 0 {
            assert(spec_nsqr(*old(a), n as int) == *old(a));
            assert(spec_nsqr(*old(a), 0) == *old(a));
        }
    }
}

/// The first stretch of the addition chain: `(z, t0, t1, t2, t3)` holding
/// `x^7`, `x^3`, `x^14`, `x^(504 * 65)` and `x^((28 + 504 * 65 * 4) * 2^13)`.
pub open spec fn spec_pro_head(x: Fp) -> (Fp, Fp, Fp, Fp, Fp) {
    let z = spec_modsqr(x);
    let t0 = spec_modmul(x, z);
    let z = spec_modsqr(t0);
    let z = spec_modmul(x, z);
    let t1 = spec_modsqr(z);
    let t3 = spec_modsqr(t1);
    let t2 = spec_modsqr(t3);
    let t4 = spec_nsqr(t2, 3);
    let t2 = spec_modmul(t2, t4);
    let t4 = spec_nsqr(t2, 6);
    let t2 = spec_modmul(t2, t4);
    let t4 = spec_nsqr(t2, 2);
    let t3 = spec_modmul(t3, t4);
    let t3 = spec_nsqr(t3, 13);
    (z, t0, t1, t2, t3)
}

/// The middle stretch of the chain, from `spec_pro_head`: `(z, t0, t1)`.
pub open spec fn spec_pro_mid(z: Fp, t0: Fp, t1: Fp, t2: Fp, t3: Fp) -> (Fp, Fp, Fp) {
    let t2 = spec_modmul(t2, t3);
    let t3 = spec_nsqr(t2, 27);
    let t2 = spec_modmul(t2, t3);
    let z = spec_modmul(z, t2);
    let t2 = spec_nsqr(z, 4);
    let t1 = spec_modmul(t1, t2);
    let t0 = spec_modmul(t0, t1);
    let t1 = spec_modmul(t1, t0);
    let t0 = spec_modmul(t0, t1);
    let t2 = spec_modmul(t1, t0);
    let t0 = spec_modmul(t0, t2);
    let t1 = spec_modmul(t1, t0);
    (z, t0, t1)
}

/// The last stretch of the chain, from `spec_pro_mid`.
pub open spec fn spec_pro_tail(z: Fp, t0: Fp, t1: Fp) -> Fp {
    let t1 = spec_nsqr(t1, 63);
    let t1 = spec_modmul(t0, t1);
    let t1 = spec_nsqr(t1, 64);
    let t0 = spec_modmul(t0, t1);
    let t0 = spec_nsqr(t0, 57);
    spec_modmul(z, t0)
}

/// The limbs of the addition chain for `x^((p-3)/4)`, for any limbs.
pub open spec fn spec_modpro(x: Fp) -> Fp {
    let (z, t0, t1, t2, t3) = spec_pro_head(x);
    let (z, t0, t1) = spec_pro_mid(z, t0, t1, t2, t3);
    spec_pro_tail(z, t0, t1)
}

/// `a` is a well-formed element standing for `x^e mod p`.
#[verifier::opaque]
pub open spec fn holds_pow(a: Fp, x: nat, e: nat) -> bool {
    fp_wf(a) && fp_value(a) == fpow(x, e)
}

/// A well-formed element is the first power of its value.
pub proof fn lemma_holds_start(a: Fp)
    requires
        fp_wf(a),
    ensures
        holds_pow(a, fp_value(a), 1),
{
    reveal(holds_pow);
    lemma_fpow_one(a);
}

/// What `holds_pow` says.
pub proof fn lemma_holds_open(a: Fp, x: nat, e: nat)
    requires
        holds_pow(a, x, e),
    ensures
        fp_wf(a),
        fp_value(a) == fpow(x, e),
{
    reveal(holds_pow);
}

/// Multiplication adds exponents.
pub proof fn lemma_holds_mul(a: Fp, b: Fp, x: nat, ea: nat, eb: nat)
    requires
        holds_pow(a, x, ea),
        holds_pow(b, x, eb),
    ensures
        holds_pow(spec_modmul(a, b), x, ea + eb),
{
    reveal(holds_pow);
    lemma_fpow_mul(a, b, x, ea, eb);
}

/// Squaring doubles the exponent.
pub proof fn lemma_holds_sqr(a: Fp, x: nat, e: nat)
    requires
        holds_pow(a, x, e),
    ensures
        holds_pow(spec_modsqr(a), x, 2 * e),
{
    reveal(holds_pow);
    lemma_fpow_sqr(a, x, e);
}

/// `n` squarings multiply the exponent by `2^n`.
pub proof fn lemma_holds_nsqr(a: Fp, x: nat, e: nat, n: int)
    requires
        holds_pow(a, x, e),
        0 <= n,
    ensures
        holds_pow(spec_nsqr(a, n), x, e * pow2(n as nat)),
    decreases n,
{
    if n == 0 {
        vstd::arithmetic::power2::lemma2_to64();
        assert(spec_nsqr(a, n) == a);
        assert(e * pow2(n as nat) == e);
    } else {
        lemma_holds_nsqr(a, x, e, n - 1);
        let e1: nat = e * pow2((n - 1) as nat);
        lemma_holds_sqr(spec_nsqr(a, n - 1), x, e1);
        vstd::arithmetic::power2::lemma_pow2_unfold(n as nat);
        assert(2 * e1 == e * pow2(n as nat)) by (nonlinear_arith)
            requires pow2(n as nat) == 2 * pow2((n - 1) as nat), e1 == e * pow2((n - 1) as nat);
        assert(spec_nsqr(a, n) == spec_modsqr(spec_nsqr(a, n - 1)));
    }
}

/// `n` squarings with the factor `2^n` given as `k`.
pub proof fn lemma_holds_nsqr_k(a: Fp, x: nat, e: nat, n: int, k: nat)
    requires
        holds_pow(a, x, e),
        0 <= n <= 64,
        k == pow2(n as nat),
    ensures
        holds_pow(spec_nsqr(a, n), x, e * k),
{
    lemma_holds_nsqr(a, x, e, n);
}

/// The values after the first stretch of the chain.
pub proof fn lemma_pro_head(w: Fp, x: nat)
    requires
        holds_pow(w, x, 1),
    ensures
        ({
            let (z, t0, t1, t2, t3) = spec_pro_head(w);
            &&& holds_pow(z, x, 7)
            &&& holds_pow(t0, x, 3)
            &&& holds_pow(t1, x, 14)
            &&& holds_pow(t2, x, 32760)
            &&& holds_pow(t3, x, 1073709056)
        }),
{
    let z = spec_modsqr(w);
    lemma_holds_sqr(w, x, 1);
    let t0 = spec_modmul(w, z);
    lemma_holds_mul(w, z, x, 1, 2);
    let z = spec_modsqr(t0);
    lemma_holds_sqr(t0, x, 3);
    let z2 = spec_modmul(w, z);
    lemma_holds_mul(w, z, x, 1, 6);
    let t1 = spec_modsqr(z2);
    lemma_holds_sqr(z2, x, 7);
    let t3 = spec_modsqr(t1);
    lemma_holds_sqr(t1, x, 14);
    let t2 = spec_modsqr(t3);
    lemma_holds_sqr(t3, x, 28);
    assert(pow2(3) == 8 && pow2(6) == 64 && pow2(2) == 4 && pow2(13) == 8192) by {
        lemma2_to64();
    }
    let t4 = spec_nsqr(t2, 3);
    lemma_holds_nsqr_k(t2, x, 56, 3, 8);
    let t2b = spec_modmul(t2, t4);
    lemma_holds_mul(t2, t4, x, 56, 448);
    let t4 = spec_nsqr(t2b, 6);
    lemma_holds_nsqr_k(t2b, x, 504, 6, 64);
    let t2c = spec_modmul(t2b, t4);
    lemma_holds_mul(t2b, t4, x, 504, 32256);
    let t4 = spec_nsqr(t2c, 2);
    lemma_holds_nsqr_k(t2c, x, 32760, 2, 4);
    let t3b = spec_modmul(t3, t4);
    lemma_holds_mul(t3, t4, x, 28, 131040);
    lemma_holds_nsqr_k(t3b, x, 131068, 13, 8192);
}

/// The values after the middle stretch of the chain.
pub proof fn lemma_pro_mid(z: Fp, t0: Fp, t1: Fp, t2: Fp, t3: Fp, x: nat)
    requires
        holds_pow(z, x, 7),
        holds_pow(t0, x, 3),
        holds_pow(t1, x, 14),
        holds_pow(t2, x, 32760),
        holds_pow(t3, x, 1073709056),
    ensures
        ({
            let (z, t0, t1) = spec_pro_mid(z, t0, t1, t2, t3);
            &&& holds_pow(z, x, 144115188075855871)
            &&& holds_pow(t0, x, 18446744073709551615nat)
            &&& holds_pow(t1, x, 23058430092136939518nat)
        }),
{
    assert(pow2(27) == 134217728 && pow2(4) == 16) by {
        lemma2_to64();
    }
    let t2a = spec_modmul(t2, t3);
    lemma_holds_mul(t2, t3, x, 32760, 1073709056);
    let t3a = spec_nsqr(t2a, 27);
    lemma_holds_nsqr_k(t2a, x, 1073741816, 27, 134217728);
    let t2b = spec_modmul(t2a, t3a);
    lemma_holds_mul(t2a, t3a, x, 1073741816, 144115187002114048);
    let za = spec_modmul(z, t2b);
    lemma_holds_mul(z, t2b, x, 7, 144115188075855864);
    let t2c = spec_nsqr(za, 4);
    lemma_holds_nsqr_k(za, x, 144115188075855871, 4, 16);
    let t1a = spec_modmul(t1, t2c);
    lemma_holds_mul(t1, t2c, x, 14, 2305843009213693936nat);
    let t0a = spec_modmul(t0, t1a);
    lemma_holds_mul(t0, t1a, x, 3, 2305843009213693950nat);
    let t1b = spec_modmul(t1a, t0a);
    lemma_holds_mul(t1a, t0a, x, 2305843009213693950nat, 2305843009213693953nat);
    let t0b = spec_modmul(t0a, t1b);
    lemma_holds_mul(t0a, t1b, x, 2305843009213693953nat, 4611686018427387903nat);
    let t2d = spec_modmul(t1b, t0b);
    lemma_holds_mul(t1b, t0b, x, 4611686018427387903nat, 6917529027641081856nat);
    let t0c = spec_modmul(t0b, t2d);
    lemma_holds_mul(t0b, t2d, x, 6917529027641081856nat, 11529215046068469759nat);
    lemma_holds_mul(t1b, t0c, x, 4611686018427387903nat, 18446744073709551615nat);
}

/// The value after the last stretch of the chain: `x^((p-3)/4)`.
pub proof fn lemma_pro_tail(z: Fp, t0: Fp, t1: Fp, x: nat)
    requires
        holds_pow(z, x, 144115188075855871),
        holds_pow(t0, x, 18446744073709551615nat),
        holds_pow(t1, x, 23058430092136939518nat),
    ensures
        holds_pow(spec_pro_tail(z, t0, t1), x, exp_3div4()),
{
    assert(pow2(63) == 0x8000000000000000nat && pow2(64) == 0x10000000000000000nat && pow2(57) == 0x200000000000000) by {
        vstd::arithmetic::power2::lemma2_to64_rest();
    }
    let t1a = spec_nsqr(t1, 63);
    lemma_holds_nsqr_k(t1, x, 23058430092136939518nat, 63, 0x8000000000000000nat);
    let t1b = spec_modmul(t0, t1a);
    lemma_holds_mul(t0, t1a, x, 18446744073709551615nat, 212676479325586539646162385571145580544nat);
    let t1c = spec_nsqr(t1b, 64);
    lemma_holds_nsqr_k(t1b, x, 212676479325586539664609129644855132159nat, 64, 0x10000000000000000nat);
    let t0a = spec_modmul(t0, t1c);
    lemma_holds_mul(t0, t1c, x, 18446744073709551615nat, 3923188584616675477397368389504791510045525408716312018944nat);
    let t0b = spec_nsqr(t0a, 57);
    lemma_holds_nsqr_k(t0a, x, 3923188584616675477397368389504791510063972152790021570559nat, 57, 0x200000000000000);
    lemma_holds_mul(z, t0b, x, 144115188075855871,
        565391060729082985466655200237733925064794847000198066598769869225562472448nat);
}

/// The addition chain computes `x^((p-3)/4)` for a well-formed element.
pub proof fn lemma_modpro(w: Fp)
    requires
        fp_wf(w),
    ensures
        fp_wf(spec_modpro(w)),
        fp_value(spec_modpro(w)) == fpow(fp_value(w), exp_3div4()),
{
    let x = fp_value(w);
    lemma_holds_start(w);
    lemma_pro_head(w, x);
    let (z, t0, t1, t2, t3) = spec_pro_head(w);
    lemma_pro_mid(z, t0, t1, t2, t3, x);
    let (z, t0, t1) = spec_pro_mid(z, t0, t1, t2, t3);
    lemma_pro_tail(z, t0, t1, x);
    lemma_holds_open(spec_modpro(w), x, exp_3div4());
}

/// `z = w^((p-3)/4)` by a fixed addition chain of squarings and
/// multiplications.
pub(crate) fn modpro(w: &Fp, z: &mut Fp)
    ensures
        *final(z) == spec_modpro(*w),
        fp_wf(*w) ==> fp_wf(*final(z)) && fp_value(*final(z)) == fpow(fp_value(*w), exp_3div4()),
{
    let x: Fp = *w;
    let mut t0: Fp;
    let mut t1: Fp;
    let mut t2: Fp;
    let mut t3: Fp;
    let mut t4: Fp;
    *z = modsqr(&x);
    t0 = modmul(&x, z);
    *z = modsqr(&t0);
    *z = modmul(&x, z);
    t1 = modsqr(z);
    t3 = modsqr(&t1);
    t2 = modsqr(&t3);
    t4 = t2;
    modnsqr(&mut t4, 3);
    t2 = modmul(&t2, &t4);
    t4 = t2;
    modnsqr(&mut t4, 6);
    t2 = modmul(&t2, &t4);
    t4 = t2;
    modnsqr(&mut t4, 2);
    t3 = modmul(&t3, &t4);
    modnsqr(&mut t3, 13);
    assert((*z, t0, t1, t2, t3) == spec_pro_head(x));
    t2 = modmul(&t2, &t3);
    t3 = t2;
    modnsqr(&mut t3, 27);
    t2 = modmul(&t2, &t3);
    *z = modmul(z, &t2);
    t2 = *z;
    modnsqr(&mut t2, 4);
    t1 = modmul(&t1, &t2);
    t0 = modmul(&t0, &t1);
    t1 = modmul(&t1, &t0);
    t0 = modmul(&t0, &t1);
    t2 = modmul(&t1, &t0);
    t0 = modmul(&t0, &t2);
    t1 = modmul(&t1, &t0);
    modnsqr(&mut t1, 63);
    t1 = modmul(&t0, &t1);
    modnsqr(&mut t1, 64);
    t0 = modmul(&t0, &t1);
    modnsqr(&mut t0, 57);
    *z = modmul(z, &t0);
    proof {
        if fp_wf(*w) {
            lemma_modpro(*w);
        }
    }
}

/// The limbs `modinv` writes from `x` and the progenitor `t`.
pub open spec fn spec_modinv(x: Fp, t: Fp) -> Fp {
    spec_modmul(x, spec_nsqr(t, 2))
}

/// The limbs `modsqrt` writes from `x` and the progenitor `y`.
pub open spec fn spec_modsqrt(x: Fp, y: Fp) -> Fp {
    spec_modmul(y, x)
}

/// The limbs whose test decides `modqr`, from `x` and the progenitor `h`.
pub open spec fn spec_euler(x: Fp, h: Fp) -> Fp {
    spec_modmul(spec_modsqr(h), x)
}

/// `p - 2`, the exponent of inversion.
pub open spec fn exp_inv() -> nat {
    (modulus() - 2) as nat
}

/// `(p - 1) / 2`, the exponent of Euler's criterion.
pub open spec fn exp_euler() -> nat {
    ((modulus() - 1) / 2) as nat
}

/// `(p + 1) / 4`, the exponent of the square root.
pub open spec fn exp_sqrt() -> nat {
    ((modulus() + 1) / 4) as nat
}

/// From the progenitor: the inverse, Euler and square-root exponents.
pub proof fn lemma_from_progenitor(x: Fp)
    requires
        fp_wf(x),
    ensures
        fp_wf(spec_modinv(x, spec_modpro(x))),
        fp_value(spec_modinv(x, spec_modpro(x))) == fpow(fp_value(x), exp_inv()),
        fp_wf(spec_euler(x, spec_modpro(x))),
        fp_value(spec_euler(x, spec_modpro(x))) == fpow(fp_value(x), exp_euler()),
        fp_wf(spec_modsqrt(x, spec_modpro(x))),
        fp_value(spec_modsqrt(x, spec_modpro(x))) == fpow(fp_value(x), exp_sqrt()),
{
    let v = fp_value(x);
    let t = spec_modpro(x);
    lemma_modpro(x);
    reveal(holds_pow);
    lemma_holds_start(x);
    assert(holds_pow(t, v, exp_3div4()));
    assert(pow2(2) == 4) by {
        lemma2_to64();
    }
    lemma_holds_nsqr_k(t, v, exp_3div4(), 2, 4);
    lemma_holds_mul(x, spec_nsqr(t, 2), v, 1, exp_3div4() * 4);
    lemma_holds_sqr(t, v, exp_3div4());
    lemma_holds_mul(spec_modsqr(t), x, v, 2 * exp_3div4(), 1);
    lemma_holds_mul(t, x, v, exp_3div4(), 1);
    lemma_exp_3div4();
    assert(1 + exp_3div4() * 4 == exp_inv());
    assert(2 * exp_3div4() + 1 == exp_euler());
    assert(exp_3div4() + 1 == exp_sqrt());
}

/// `z = x^-1`: with no progenitor given, `x^(p-2)`; with `h`, `x * h^4`.
pub(crate) fn modinv(x: &Fp, h: Option<&Fp>, z: &mut Fp)
    ensures
        h is None ==> *final(z) == spec_modinv(*x, spec_modpro(*x)),
        h is Some ==> *final(z) == spec_modinv(*x, *h.unwrap()),
        h is None && fp_wf(*x) ==> fp_wf(*final(z)) && fp_value(*final(z)) == fpow(fp_value(*x), exp_inv()),
{
    let mut t: Fp = [0u64; NWORDS_FIELD];
    match h {
        None => modpro(x, &mut t),
        Some(h) => t = *h,
    }
    let s: Fp = *x;
    modnsqr(&mut t, 2);
    *z = modmul(&s, &t);
    proof {
        if h is None && fp_wf(*x) {
            lemma_from_progenitor(*x);
        }
    }
}

/// `1` if `x` is zero or `x^((p-1)/2)` is one (computed from the
/// progenitor, or from `h` when given), else `0`.
pub(crate) fn modqr(h: Option<&Fp>, x: &Fp) -> (r: u32)
    ensures
        h is None ==> r == (if fp_value(spec_euler(*x, spec_modpro(*x))) == 1 || fp_value(*x) == 0 { 1u32 } else { 0u32 }),
        h is Some ==> r == (if fp_value(spec_euler(*x, *h.unwrap())) == 1 || fp_value(*x) == 0 { 1u32 } else { 0u32 }),
{
    let mut r: Fp = [0u64; NWORDS_FIELD];
    match h {
        None => {
            modpro(x, &mut r);
            r = modsqr(&r);
        }
        Some(h) => {
            r = modsqr(h);
        }
    }
    r = modmul(&r, x);
    let a = modis1(&r);
    let b = modis0(x);
    proof {
        crate::bits::lemma_u32_bits(a, b);
    }
    a | b
}

/// `r = x^((p+1)/4)`, from the progenitor (or from `h` when given).
pub(crate) fn modsqrt(x: &Fp, h: Option<&Fp>, r: &mut Fp)
    ensures
        h is None ==> *final(r) == spec_modsqrt(*x, spec_modpro(*x)),
        h is Some ==> *final(r) == spec_modsqrt(*x, *h.unwrap()),
        h is None && fp_wf(*x) ==> fp_wf(*final(r)) && fp_value(*final(r)) == fpow(fp_value(*x), exp_sqrt()),
{
    let mut y: Fp = [0u64; NWORDS_FIELD];
    match h {
        None => modpro(x, &mut y),
        Some(h) => y = *h,
    }
    let s = modmul(&y, x);
    *r = s;
    proof {
        if h is None && fp_wf(*x) {
            lemma_from_progenitor(*x);
        }
    }
}

/// `out = a^((p-3)/4)`.
pub fn fp_exp3div4(out: &mut Fp, a: &Fp)
    ensures
        *final(out) == spec_modpro(*a),
        fp_wf(*a) ==> fp_wf(*final(out)) && fp_value(*final(out)) == fpow(fp_value(*a), exp_3div4()),
{
    modpro(a, out);
}

/// `x = x^(p-2)`: the inverse of a non-zero `x` (its product with `x` is
/// one), and zero for zero.
pub fn fp_inv(x: &mut Fp)
    ensures
        *final(x) == spec_modinv(*old(x), spec_modpro(*old(x))),
        fp_wf(*old(x)) ==> fp_wf(*final(x)) && fp_value(*final(x)) == fpow(fp_value(*old(x)), exp_inv()),
        fp_wf(*old(x)) && fp_value(*old(x)) != 0 ==> (fp_value(*final(x)) * fp_value(*old(x))) % modulus() == 1,
{
    let input = *x;
    modinv(&input, None, x);
    proof {
        if fp_wf(input) && fp_value(input) != 0 {
            crate::fermat::lemma_fermat_p(fp_value(input));
        }
    }
}

/// The all-ones mask when `a` is zero or `a^((p-1)/2)` is one (Euler's
/// criterion), else `0`: for a well-formed `a`, all ones exactly when `a`
/// is a square in GF(p).
pub fn fp_is_square(a: &Fp) -> (r: u32)
    ensures
        r == (if fp_value(spec_euler(*a, spec_modpro(*a))) == 1 || fp_value(*a) == 0 { 0xffffffffu32 } else { 0u32 }),
        fp_wf(*a) ==> (r == 0xffffffffu32 <==> fpow(fp_value(*a), exp_euler()) == 1 || fp_value(*a) == 0),
        fp_wf(*a) ==> (r == 0xffffffffu32 <==> exists|y: nat| y < modulus() && #[trigger] ((y * y) % modulus()) == fp_value(*a)),
        r == 0xffffffffu32 || r == 0,
{
    proof {
        if fp_wf(*a) {
            lemma_from_progenitor(*a);
            crate::fermat::lemma_euler_square(fp_value(*a));
        }
    }
    0u32.wrapping_sub(modqr(None, a))
}

/// `a = a^((p+1)/4)`: a square root of `a` when `a` is a square.
pub fn fp_sqrt(a: &mut Fp)
    ensures
        *final(a) == spec_modsqrt(*old(a), spec_modpro(*old(a))),
        fp_wf(*old(a)) ==> fp_wf(*final(a)) && fp_value(*final(a)) == fpow(fp_value(*old(a)), exp_sqrt()),
{
    let input = *a;
    modsqrt(&input, None, a);
}

} // verus!
