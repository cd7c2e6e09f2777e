//! What the primality of `p` gives the field: Fermat's little theorem,
//! inverses, Euler's criterion for squares, and inverses in GF(p^2).
use vstd::prelude::*;
use vstd::arithmetic::power::{lemma_pow_adds, lemma_pow_multiplies, lemma_pow1, pow};
use vstd::arithmetic::div_mod::{lemma_mul_mod_noop, lemma_small_mod};
use crate::certificate::lemma_modulus_prime;
use crate::exp::{exp_euler, exp_inv, exp_sqrt, fpow};
use crate::ext_spec::{f2mul, fmod, lemma_mod_ops};
use crate::field_spec::modulus;
use crate::prime::{lemma_euclid, lemma_fermat_unit};

verus! {

/// Fermat's little theorem in GF(p), and the inverse it gives: for a
/// non-zero residue `v`, `v^(p-1) == 1` and `v^(p-2) * v == 1`.
pub proof fn lemma_fermat_p(v: nat)
    requires
        0 < v < modulus(),
    ensures
        fpow(v, (modulus() - 1) as nat) == 1,
        (fpow(v, exp_inv()) * v) % modulus() == 1,
{
    let m = modulus() as int;
    lemma_modulus_prime();
    lemma_small_mod(v, modulus());
    lemma_fermat_unit(modulus(), v as int);
    let i = pow(v as int, exp_inv());
    lemma_mul_mod_noop(i, v as int, m);
    lemma_pow_adds(v as int, exp_inv(), 1);
    lemma_pow1(v as int);
    assert(exp_inv() + 1 == (modulus() - 1) as nat);
    vstd::arithmetic::div_mod::lemma_mod_twice(i * v, m);
}

/// `y^2` as a power.
proof fn lemma_square_pow(y: int)
    ensures
        pow(y, 2) == y * y,
{
    reveal(pow);
    assert(pow(y, 0) == 1);
    assert(pow(y, 1) == y * 1);
    assert(pow(y, 2) == y * pow(y, 1));
}

/// Euler's criterion: a residue `v` is zero or has `v^((p-1)/2) == 1`
/// exactly when it is a square in GF(p).
pub proof fn lemma_euler_square(v: nat)
    requires
        v < modulus(),
    ensures
        (fpow(v, exp_euler()) == 1 || v == 0) <==> exists|y: nat| y < modulus() && #[trigger] ((y * y) % modulus()) == v,
{
    let m = modulus() as int;
    lemma_small_mod(v, modulus());
    if fpow(v, exp_euler()) == 1 || v == 0 {
        // the root `v^((p+1)/4)` squares back to `v`
        let s = pow(v as int, exp_sqrt());
        let y = fpow(v, exp_sqrt());
        lemma_mul_mod_noop(s, s, m);
        lemma_pow_adds(v as int, exp_sqrt(), exp_sqrt());
        assert(exp_sqrt() + exp_sqrt() == exp_euler() + 1);
        lemma_pow_adds(v as int, exp_euler(), 1);
        lemma_pow1(v as int);
        let e = pow(v as int, exp_euler());
        lemma_mul_mod_noop(e, v as int, m);
        if v == 0 {
            vstd::arithmetic::power::lemma0_pow(exp_euler());
            assert(e * 0 == 0);
        } else {
            assert((e % m) == 1);
            assert((1 * ((v as int) % m)) % m == v);
        }
        assert(y < modulus());
        assert((y * y) % modulus() == v);
    }
    if exists|y: nat| y < modulus() && #[trigger] ((y * y) % modulus()) == v {
        let y = choose|y: nat| y < modulus() && #[trigger] ((y * y) % modulus()) == v;
        if v != 0 {
            if y == 0 {
                assert(y * y == 0);
                lemma_small_mod(0, modulus());
            }
            // v^((p-1)/2) == (y^2)^((p-1)/2) == y^(p-1) == 1
            vstd::arithmetic::power::lemma_pow_mod_noop((y * y) as int, exp_euler(), m);
            lemma_square_pow(y as int);
            lemma_pow_multiplies(y as int, 2, exp_euler());
            assert(2 * exp_euler() == (modulus() - 1) as nat);
            lemma_modulus_prime();
            lemma_small_mod(y, modulus());
            lemma_fermat_unit(modulus(), y as int);
            assert(fpow(v, exp_euler()) == 1);
        }
    }
}

/// `(-1)^((p-1)/2) == -1`: the exponent is odd.
proof fn lemma_minus_one_euler()
    ensures
        pow(-1, exp_euler()) == -1,
{
    let k = ((exp_euler() - 1) / 2) as nat;
    assert(exp_euler() == 2 * k + 1);
    lemma_pow_multiplies(-1, 2, k);
    lemma_square_pow(-1);
    vstd::arithmetic::power::lemma1_pow(k);
    lemma_pow_adds(-1, 2 * k, 1);
    lemma_pow1(-1);
}

/// The norm `a^2 + b^2` of a non-zero element of GF(p^2) is not zero
/// modulo `p`: `-1` is not a square, as `(p-1)/2` is odd.
pub proof fn lemma_norm_nonzero(a: nat, b: nat)
    requires
        a < modulus(),
        b < modulus(),
        a != 0 || b != 0,
    ensures
        fmod((a * a + b * b) as int) != 0,
{
    let m = modulus() as int;
    lemma_modulus_prime();
    lemma_small_mod(a, modulus());
    lemma_small_mod(b, modulus());
    if fmod((a * a + b * b) as int) == 0 {
        let aa = (a * a) as int;
        let bb = (b * b) as int;
        // a^2 == -b^2 (mod p)
        lemma_mod_ops(aa + bb, bb);
        lemma_mod_ops(0, bb);
        lemma_small_mod(0, modulus());
        assert(aa % m == (0 - bb) % m);
        if a == 0 || b == 0 {
            if a == 0 {
                assert(aa == 0);
                assert(bb % m == 0);
                lemma_euclid(modulus(), b as int, b as int);
            } else {
                assert(bb == 0);
                assert(aa % m == 0);
                lemma_euclid(modulus(), a as int, a as int);
            }
            assert(false);
        }
        // a^(p-1) == (a^2)^((p-1)/2) == (-b^2)^((p-1)/2) == -(b^(p-1))
        let e = exp_euler();
        assert(2 * e == (modulus() - 1) as nat);
        vstd::arithmetic::power::lemma_pow_mod_noop(aa, e, m);
        vstd::arithmetic::power::lemma_pow_mod_noop(0 - bb, e, m);
        lemma_square_pow(a as int);
        lemma_square_pow(b as int);
        lemma_pow_multiplies(a as int, 2, e);
        lemma_pow_multiplies(b as int, 2, e);
        lemma_fermat_unit(modulus(), a as int);
        lemma_fermat_unit(modulus(), b as int);
        assert(0 - bb == (-1) * bb);
        vstd::arithmetic::power::lemma_pow_distributes(-1, bb, e);
        lemma_minus_one_euler();
        let pb = pow(b as int, (modulus() - 1) as nat);
        assert(pow(0 - bb, e) == 0 - pb);
        lemma_mod_ops(0, pb);
        assert(pb % m == 1);
        assert((0 - pb) % m == (0 - 1) % m);
        vstd::arithmetic::div_mod::lemma_fundamental_div_mod_converse(-1, m, -1, m - 1);
        assert(false);
    }
}

/// The value `f2inv` gives is the inverse of every non-zero element of
/// GF(p^2).
pub proof fn lemma_f2inv(v: (nat, nat))
    requires
        v.0 < modulus(),
        v.1 < modulus(),
        v != (0nat, 0nat),
    ensures
        f2mul(crate::fp2::f2inv(v), v) == (1nat, 0nat),
{
    let m = modulus() as int;
    let a = v.0 as int;
    let b = v.1 as int;
    let n = fmod(a * a + b * b);
    let ni = fpow(n, exp_inv());
    lemma_norm_nonzero(v.0, v.1);
    lemma_fermat_p(n);
    let c = (v.0 * ni) % modulus();
    let d = fmod(0 - (v.1 * ni) % modulus());
    assert(crate::fp2::f2inv(v) == (c, d));
    assert(c == fmod(a * ni));
    lemma_mod_ops(0, b * ni);
    lemma_small_mod(0, modulus());
    assert(d == fmod(0 - b * ni));
    crate::ext_spec::lemma_fmod_lin(a * ni, 0 - b * ni, a, b);
    crate::ext_spec::lemma_fmod_lin(a * ni, 0 - b * ni, b, a);
    assert((a * ni) * a - (0 - b * ni) * b == (a * a + b * b) * ni) by (nonlinear_arith);
    assert((a * ni) * b + (0 - b * ni) * a == 0) by (nonlinear_arith);
    lemma_mod_ops(a * a + b * b, ni as int);
    lemma_small_mod(ni, modulus());
    assert((n * ni) == (ni * n)) by (nonlinear_arith);
    assert(fmod(0) == 0);
}

/// GF(p^2) has no zero divisors: the product of two non-zero elements is
/// not zero.
pub proof fn lemma_f2mul_nonzero(x: (nat, nat), y: (nat, nat))
    requires
        x.0 < modulus() && x.1 < modulus(),
        y.0 < modulus() && y.1 < modulus(),
        x != (0nat, 0nat),
        y != (0nat, 0nat),
    ensures
        f2mul(x, y) != (0nat, 0nat),
{
    if f2mul(x, y) == (0nat, 0nat) {
        let xi = crate::fp2::f2inv(x);
        lemma_f2inv(x);
        crate::ext_spec::lemma_f2mul_assoc(xi, x, y);
        crate::ext_spec::lemma_f2mul_one(y);
        assert(f2mul(xi, (0nat, 0nat)) == (0nat, 0nat)) by {
            assert(xi.0 * 0 - xi.1 * 0 == 0);
            assert(xi.0 * 0 + xi.1 * 0 == 0);
            lemma_small_mod(0, modulus());
        }
        assert(false);
    }
}

/// The product of non-zero elements of GF(p^2) is not zero.
pub proof fn lemma_f2prod_nonzero(s: Seq<(nat, nat)>)
    requires
        crate::ext_spec::all_reduced(s),
        forall|i: int| 0 <= i < s.len() ==> #[trigger] s[i] != (0nat, 0nat),
    ensures
        crate::ext_spec::f2prod(s) != (0nat, 0nat),
    decreases s.len(),
{
    if s.len() > 0 {
        let t = s.drop_last();
        assert forall|i: int| 0 <= i < t.len() implies #[trigger] t[i] != (0nat, 0nat)
            && t[i].0 < modulus() && t[i].1 < modulus() by {
            assert(t[i] == s[i]);
        }
        lemma_f2prod_nonzero(t);
        crate::ext_spec::lemma_f2prod_reduced(t);
        assert(s.last() == s[s.len() - 1]);
        lemma_f2mul_nonzero(crate::ext_spec::f2prod(t), s.last());
    } else {
        assert(crate::ext_spec::f2one() == (1nat, 0nat));
    }
}

/// Congruence modulo `p` is kept by sums, differences and products.
pub proof fn lemma_cong(x: int, x2: int, y: int, y2: int)
    requires
        x % (modulus() as int) == x2 % (modulus() as int),
        y % (modulus() as int) == y2 % (modulus() as int),
    ensures
        (x * y) % (modulus() as int) == (x2 * y2) % (modulus() as int),
        (x + y) % (modulus() as int) == (x2 + y2) % (modulus() as int),
        (x - y) % (modulus() as int) == (x2 - y2) % (modulus() as int),
{
    lemma_mod_ops(x, y);
    lemma_mod_ops(x2, y2);
}

/// The square root `v^((p+1)/4)` of a square `v` of GF(p) squares back to
/// `v`.
pub proof fn lemma_sqrt_value(v: nat)
    requires
        v < modulus(),
        fpow(v, exp_euler()) == 1 || v == 0,
    ensures
        (fpow(v, exp_sqrt()) * fpow(v, exp_sqrt())) % modulus() == v,
{
    let m = modulus() as int;
    lemma_small_mod(v, modulus());
    let s = pow(v as int, exp_sqrt());
    lemma_mul_mod_noop(s, s, m);
    lemma_pow_adds(v as int, exp_sqrt(), exp_sqrt());
    assert(exp_sqrt() + exp_sqrt() == exp_euler() + 1);
    lemma_pow_adds(v as int, exp_euler(), 1);
    lemma_pow1(v as int);
    let e = pow(v as int, exp_euler());
    lemma_mul_mod_noop(e, v as int, m);
    if v == 0 {
        vstd::arithmetic::power::lemma0_pow(exp_euler());
        assert(e * 0 == 0);
    } else {
        assert((e % m) == 1);
        assert((1 * ((v as int) % m)) % m == v);
    }
}

/// The quadratic character: for a non-zero `t`, `t * (t^((p-3)/4))^2` is
/// `t^((p-1)/2)`, which is one or minus one.
pub proof fn lemma_character(t: nat)
    requires
        0 < t < modulus(),
    ensures
        ({
            let x = fpow(t, crate::exp::exp_3div4());
            let c = ((t * x) * x) % modulus();
            c == fpow(t, exp_euler()) && (c == 1 || c == modulus() - 1)
        }),
{
    let m = modulus() as int;
    let e34 = crate::exp::exp_3div4();
    crate::exp::lemma_exp_3div4();
    assert(e34 + e34 + 1 == exp_euler());
    let w = pow(t as int, e34);
    let x = fpow(t, e34);
    lemma_pow_adds(t as int, e34, e34);
    lemma_pow_adds(t as int, e34 + e34, 1);
    lemma_pow1(t as int);
    lemma_small_mod(t, modulus());
    assert(pow(t as int, exp_euler()) == (w * w) * t);
    vstd::arithmetic::div_mod::lemma_mod_twice(w, m);
    lemma_cong(w, x as int, w, x as int);
    lemma_cong(w * w, (x * x) as int, t as int, t as int);
    assert((t * x) * x == (x * x) * t) by (nonlinear_arith);
    let c = ((t * x) * x) % modulus();
    // c^2 == t^(p-1) == 1, so (c - 1)(c + 1) == 0
    let ce = pow(t as int, exp_euler());
    lemma_fermat_p(t);
    lemma_pow_adds(t as int, exp_euler(), exp_euler());
    assert(exp_euler() + exp_euler() == (modulus() - 1) as nat);
    lemma_cong(ce, c as int, ce, c as int);
    assert(((c as int - 1) * (c as int + 1)) % m == 0) by {
        assert((c as int - 1) * (c as int + 1) == c * c - 1) by (nonlinear_arith);
        lemma_mod_ops((c * c) as int, 1);
        lemma_small_mod(1, modulus());
        lemma_small_mod(0, modulus());
    }
    lemma_modulus_prime();
    lemma_euclid(modulus(), c as int - 1, c as int + 1);
    if (c as int - 1) % m == 0 {
        lemma_small_mod((c - 1) as nat, modulus());
    } else {
        if c + 1 < modulus() {
            lemma_small_mod((c + 1) as nat, modulus());
        }
    }
}

/// The identities behind `fp2_sqrt`, modulo `p`: with `d^2 == a^2 + b^2`,
/// `x0 == d + a`, `t0 == 2 x0`, `y0 == x0 x1`, `y1 == x1 b`, `t1 == (2 y0)^2`
/// and `c == t0 x1^2`, the square of `y0 + y1 i` is `(a + b i) c`, and
/// `t1 == t0 c`.
pub proof fn lemma_sqrt_identities(a: int, b: int, d: int, x0: int, t0: int, x1: int, y0: int, y1: int, t1: int)
    requires
        (d * d) % (modulus() as int) == (a * a + b * b) % (modulus() as int),
        x0 % (modulus() as int) == (d + a) % (modulus() as int),
        t0 % (modulus() as int) == (x0 + x0) % (modulus() as int),
        y0 % (modulus() as int) == (x0 * x1) % (modulus() as int),
        y1 % (modulus() as int) == (x1 * b) % (modulus() as int),
        t1 % (modulus() as int) == ((y0 + y0) * (y0 + y0)) % (modulus() as int),
    ensures
        (x0 * x0 - b * b) % (modulus() as int) == (2 * a * x0) % (modulus() as int),
        (y0 * y0 - y1 * y1) % (modulus() as int) == (a * (t0 * x1 * x1)) % (modulus() as int),
        (y0 * y1 + y1 * y0) % (modulus() as int) == (b * (t0 * x1 * x1)) % (modulus() as int),
        t1 % (modulus() as int) == (t0 * (t0 * x1 * x1)) % (modulus() as int),
{
    let m = modulus() as int;
    // x0^2 - b^2 == 2 a x0
    lemma_cong(x0, d + a, x0, d + a);
    lemma_cong(x0 * x0, (d + a) * (d + a), b * b, b * b);
    assert((d + a) * (d + a) - b * b == d * d + (2 * a * d + a * a - b * b)) by (nonlinear_arith);
    lemma_cong(d * d, a * a + b * b, 2 * a * d + a * a - b * b, 2 * a * d + a * a - b * b);
    assert((a * a + b * b) + (2 * a * d + a * a - b * b) == (2 * a) * (d + a)) by (nonlinear_arith);
    lemma_cong(2 * a, 2 * a, d + a, x0);
    assert((2 * a) * x0 == 2 * a * x0) by (nonlinear_arith);
    // y0^2 - y1^2 == x1^2 (x0^2 - b^2) == x1^2 2 a x0 == a (2 x0) x1^2 == a t0 x1^2
    lemma_cong(y0, x0 * x1, y0, x0 * x1);
    lemma_cong(y1, x1 * b, y1, x1 * b);
    lemma_cong(y0 * y0, (x0 * x1) * (x0 * x1), y1 * y1, (x1 * b) * (x1 * b));
    assert((x0 * x1) * (x0 * x1) - (x1 * b) * (x1 * b) == (x1 * x1) * (x0 * x0 - b * b)) by (nonlinear_arith);
    lemma_cong(x1 * x1, x1 * x1, x0 * x0 - b * b, 2 * a * x0);
    assert((x1 * x1) * (2 * a * x0) == a * ((x0 + x0) * x1 * x1)) by (nonlinear_arith);
    lemma_cong(x0 + x0, t0, x1 * x1, x1 * x1);
    assert((x0 + x0) * x1 * x1 == (x0 + x0) * (x1 * x1)) by (nonlinear_arith);
    assert(t0 * x1 * x1 == t0 * (x1 * x1)) by (nonlinear_arith);
    lemma_cong(a, a, (x0 + x0) * x1 * x1, t0 * x1 * x1);
    // 2 y0 y1 == 2 x0 x1^2 b == b t0 x1^2
    lemma_cong(y0, x0 * x1, y1, x1 * b);
    lemma_cong(y1, x1 * b, y0, x0 * x1);
    lemma_cong(y0 * y1, (x0 * x1) * (x1 * b), y1 * y0, (x1 * b) * (x0 * x1));
    assert((x0 * x1) * (x1 * b) + (x1 * b) * (x0 * x1) == b * ((x0 + x0) * x1 * x1)) by (nonlinear_arith);
    lemma_cong(b, b, (x0 + x0) * x1 * x1, t0 * x1 * x1);
    // t1 == (2 x0 x1)^2 == t0 (t0 x1^2)
    lemma_cong(y0 + y0, (x0 * x1) + (x0 * x1), y0 + y0, (x0 * x1) + (x0 * x1));
    lemma_cong(y0 + y0, (x0 * x1) + (x0 * x1), y0 + y0, (x0 * x1) + (x0 * x1));
    lemma_cong(y0, x0 * x1, y0, x0 * x1);
    assert(((x0 * x1) + (x0 * x1)) * ((x0 * x1) + (x0 * x1)) == (x0 + x0) * ((x0 + x0) * x1 * x1)) by (nonlinear_arith);
    lemma_cong(x0 + x0, t0, (x0 + x0) * x1 * x1, t0 * x1 * x1);
}

/// Negating both halves does not change the square.
pub proof fn lemma_f2mul_neg(r0: nat, r1: nat)
    ensures
        f2mul((fmod(0 - r0), fmod(0 - r1)), (fmod(0 - r0), fmod(0 - r1))) == f2mul((r0, r1), (r0, r1)),
{
    let m = modulus() as int;
    let n0 = fmod(0 - r0) as int;
    let n1 = fmod(0 - r1) as int;
    vstd::arithmetic::div_mod::lemma_mod_twice(0 - r0, m);
    vstd::arithmetic::div_mod::lemma_mod_twice(0 - r1, m);
    lemma_cong(n0, 0 - r0, n0, 0 - r0);
    lemma_cong(n1, 0 - r1, n1, 0 - r1);
    lemma_cong(n0 * n0, (0 - r0) * (0 - r0), n1 * n1, (0 - r1) * (0 - r1));
    lemma_cong(n0, 0 - r0, n1, 0 - r1);
    lemma_cong(n1, 0 - r1, n0, 0 - r0);
    lemma_cong(n0 * n1, (0 - r0) * (0 - r1), n1 * n0, (0 - r1) * (0 - r0));
    assert((0 - r0) * (0 - r0) - (0 - r1) * (0 - r1) == r0 * r0 - r1 * r1) by (nonlinear_arith);
    assert((0 - r0) * (0 - r1) + (0 - r1) * (0 - r0) == r0 * r1 + r1 * r0) by (nonlinear_arith);
}

/// `2 t` is not zero modulo `p` for a non-zero residue `t`.
proof fn lemma_double_nonzero(t: int)
    requires
        t % (modulus() as int) != 0,
    ensures
        (t + t) % (modulus() as int) != 0,
{
    lemma_modulus_prime();
    if (t + t) % (modulus() as int) == 0 {
        assert(t + t == 2 * t);
        lemma_euclid(modulus(), 2, t);
        lemma_small_mod(2, modulus());
    }
}

/// The GF(p^2) square root is a root: when the norm `a^2 + b^2` is a square
/// of GF(p) (in particular when `a + b i` is a square of GF(p^2)), the
/// value `fp2_sqrt_value(a, b)` squares to `a + b i`.
#[verifier::rlimit(60)]
pub proof fn lemma_fp2_sqrt_root(a: nat, b: nat)
    requires
        a < modulus(),
        b < modulus(),
        fpow(fmod((a * a + b * b) as int), exp_euler()) == 1 || fmod((a * a + b * b) as int) == 0,
    ensures
        ({
            let r = crate::fp2::fp2_sqrt_value(a, b);
            f2mul(r, r) == (a, b)
        }),
{
    let p = modulus();
    let m = p as int;
    let n = fmod((a * a + b * b) as int);
    let delta = if b == 0 { a } else { fpow(n, exp_sqrt()) };
    let x0 = (delta + a) % p;
    let t0 = (x0 + x0) % p;
    let x1 = fpow(t0, crate::exp::exp_3div4());
    let y0 = (x0 * x1) % p;
    let y1 = (x1 * b) % p;
    let u = (y0 + y0) % p;
    let t1 = (u * u) % p;
    let f = fmod(t0 - t1) == 0;
    let r0 = if f { y0 } else { y1 };
    let r1 = if f { y1 } else { fmod(0 - y0) };
    lemma_small_mod(a, p);
    lemma_small_mod(b, p);
    lemma_small_mod(0, p);
    // delta^2 == a^2 + b^2
    if b == 0 {
        assert(delta * delta == a * a + b * b);
    } else {
        lemma_sqrt_value(n);
        vstd::arithmetic::div_mod::lemma_mod_twice((a * a + b * b) as int, m);
    }
    vstd::arithmetic::div_mod::lemma_mod_twice((delta + a) as int, m);
    vstd::arithmetic::div_mod::lemma_mod_twice((x0 + x0) as int, m);
    vstd::arithmetic::div_mod::lemma_mod_twice((x0 * x1) as int, m);
    vstd::arithmetic::div_mod::lemma_mod_twice((x1 * b) as int, m);
    vstd::arithmetic::div_mod::lemma_mod_twice((y0 + y0) as int, m);
    lemma_cong(u as int, (y0 + y0) as int, u as int, (y0 + y0) as int);
    vstd::arithmetic::div_mod::lemma_mod_twice((u * u) as int, m);
    lemma_sqrt_identities(a as int, b as int, delta as int, x0 as int, t0 as int, x1 as int, y0 as int, y1 as int, t1 as int);
    let k = (t0 * x1 * x1) as int;
    let c = ((t0 * x1) * x1) % p;
    vstd::arithmetic::div_mod::lemma_mod_twice(k, m);
    lemma_cong(a as int, a as int, k, c as int);
    lemma_cong(b as int, b as int, k, c as int);
    lemma_cong(t0 as int, t0 as int, k, c as int);
    if t0 == 0 {
        // then x0, b and a are all zero, and so is the root
        lemma_modulus_prime();
        if x0 != 0 {
            lemma_small_mod(x0, p);
            lemma_double_nonzero(x0 as int);
        }
        assert(x0 == 0);
        assert((0 - b * b) % m == 0);
        lemma_mod_ops(0, (b * b) as int);
        if b != 0 {
            lemma_euclid(p, b as int, b as int);
        }
        assert(b == 0);
        if a != 0 {
            lemma_double_nonzero(a as int);
        }
        vstd::arithmetic::power::lemma0_pow(crate::exp::exp_3div4());
        assert(x1 == 0);
        assert(y0 == 0 && y1 == 0);
        assert(r0 == 0 && r1 == 0);
        assert(f2mul((r0, r1), (r0, r1)) == (a, b));
    } else {
        lemma_character(t0);
        if c == 1 {
            assert(t1 as int % m == t0 as int % m);
            assert(f);
            assert(f2mul((r0, r1), (r0, r1)) == (a, b));
        } else {
            assert(c == p - 1);
            // t1 == -t0, so t0 - t1 == 2 t0 is not zero
            assert((t0 as int) * (c as int) == (0 - t0) + m * t0) by (nonlinear_arith)
                requires c == m - 1;
            vstd::arithmetic::div_mod::lemma_mod_multiples_vanish(t0 as int, 0 - t0, m);
            lemma_cong(t0 as int, t0 as int, t1 as int, 0 - t0);
            lemma_small_mod(t0, p);
            lemma_double_nonzero(t0 as int);
            assert(!f);
            // the root is y1 - y0 i, whose square is -(a + b i) c == a + b i
            let ny0 = fmod(0 - y0) as int;
            vstd::arithmetic::div_mod::lemma_mod_twice(0 - y0, m);
            lemma_cong(y1 as int, y1 as int, ny0, 0 - y0);
            lemma_cong(ny0, 0 - y0, ny0, 0 - y0);
            lemma_cong(ny0, 0 - y0, y1 as int, y1 as int);
            lemma_cong((y1 * y1) as int, (y1 * y1) as int, ny0 * ny0, (0 - y0) * (0 - y0));
            lemma_cong((y1 as int) * ny0, (y1 as int) * (0 - y0), ny0 * (y1 as int), (0 - y0) * (y1 as int));
            assert((y1 * y1) as int - (0 - y0) * (0 - y0) == 0 - ((y0 * y0) as int - (y1 * y1) as int)) by (nonlinear_arith);
            assert((y1 as int) * (0 - y0) + (0 - y0) * (y1 as int) == 0 - ((y0 * y1) as int + (y1 * y0) as int)) by (nonlinear_arith);
            lemma_cong(0, 0, (y0 * y0) as int - (y1 * y1) as int, (a * c) as int);
            lemma_cong(0, 0, (y0 * y1) as int + (y1 * y0) as int, (b * c) as int);
            assert(0 - (a * c) as int == a as int + m * (0 - a)) by (nonlinear_arith)
                requires c == m - 1;
            assert(0 - (b * c) as int == b as int + m * (0 - b)) by (nonlinear_arith)
                requires c == m - 1;
            vstd::arithmetic::div_mod::lemma_mod_multiples_vanish(0 - a, a as int, m);
            vstd::arithmetic::div_mod::lemma_mod_multiples_vanish(0 - b, b as int, m);
            assert(f2mul((r0, r1), (r0, r1)) == (a, b));
        }
    }
    lemma_f2mul_neg(r0, r1);
}

/// `a + b i` is a square of GF(p^2).
pub open spec fn is_f2_square(v: (nat, nat)) -> bool {
    exists|y: (nat, nat)| y.0 < modulus() && y.1 < modulus() && #[trigger] f2mul(y, y) == v
}

/// The norm of a square is a square of GF(p): `N(y^2) == N(y)^2`.
pub proof fn lemma_norm_of_square(y: (nat, nat))
    requires
        y.0 < modulus(),
        y.1 < modulus(),
    ensures
        ({
            let v = f2mul(y, y);
            let n = fmod((v.0 * v.0 + v.1 * v.1) as int);
            fpow(n, exp_euler()) == 1 || n == 0
        }),
{
    let m = modulus() as int;
    let v = f2mul(y, y);
    let a = y.0 as int;
    let b = y.1 as int;
    let n = fmod((v.0 * v.0 + v.1 * v.1) as int);
    let w = fmod(a * a + b * b);
    vstd::arithmetic::div_mod::lemma_mod_twice(a * a - b * b, m);
    vstd::arithmetic::div_mod::lemma_mod_twice(a * b + b * a, m);
    lemma_cong(v.0 as int, a * a - b * b, v.0 as int, a * a - b * b);
    lemma_cong(v.1 as int, a * b + b * a, v.1 as int, a * b + b * a);
    lemma_cong((v.0 * v.0) as int, (a * a - b * b) * (a * a - b * b), (v.1 * v.1) as int, (a * b + b * a) * (a * b + b * a));
    assert((a * a - b * b) * (a * a - b * b) + (a * b + b * a) * (a * b + b * a) == (a * a + b * b) * (a * a + b * b))
        by (nonlinear_arith);
    vstd::arithmetic::div_mod::lemma_mod_twice(a * a + b * b, m);
    lemma_cong(w as int, a * a + b * b, w as int, a * a + b * b);
    vstd::arithmetic::div_mod::lemma_mod_twice((v.0 * v.0 + v.1 * v.1) as int, m);
    assert((w * w) % modulus() == n);
    lemma_euler_square(n);
}

/// A value of GF(p^2) is a square exactly when its norm is zero or a
/// square of GF(p), and then `fp2_sqrt_value` is a root of it.
pub proof fn lemma_f2_square_norm(a: nat, b: nat)
    requires
        a < modulus(),
        b < modulus(),
    ensures
        is_f2_square((a, b)) <==> (fpow(fmod((a * a + b * b) as int), exp_euler()) == 1
            || fmod((a * a + b * b) as int) == 0),
        is_f2_square((a, b)) ==> ({
            let r = crate::fp2::fp2_sqrt_value(a, b);
            r.0 < modulus() && r.1 < modulus() && f2mul(r, r) == (a, b)
        }),
{
    let n = fmod((a * a + b * b) as int);
    if is_f2_square((a, b)) {
        let y = choose|y: (nat, nat)| y.0 < modulus() && y.1 < modulus() && #[trigger] f2mul(y, y) == (a, b);
        lemma_norm_of_square(y);
    }
    if fpow(n, exp_euler()) == 1 || n == 0 {
        lemma_fp2_sqrt_root(a, b);
        let r = crate::fp2::fp2_sqrt_value(a, b);
        lemma_sqrt_value_reduced(a, b);
        assert(f2mul(r, r) == (a, b));
    }
}

/// The square root's halves are residues, the real half is even, and the
/// imaginary half is even when the real half is zero.
pub proof fn lemma_sqrt_value_reduced(a: nat, b: nat)
    ensures
        ({
            let r = crate::fp2::fp2_sqrt_value(a, b);
            &&& r.0 < modulus() && r.1 < modulus()
            &&& r.0 % 2 == 0
            &&& r.0 == 0 ==> r.1 % 2 == 0
        }),
{
    let p = modulus();
    let n = fmod((a * a + b * b) as int);
    let delta = if b == 0 { a } else { fpow(n, exp_sqrt()) };
    let x0 = (delta + a) % p;
    let t0 = (x0 + x0) % p;
    let x1 = fpow(t0, crate::exp::exp_3div4());
    let y0 = (x0 * x1) % p;
    let y1 = (x1 * b) % p;
    let u = (y0 + y0) % p;
    let t1 = (u * u) % p;
    let f = fmod(t0 - t1) == 0;
    let r0 = if f { y0 } else { y1 };
    let r1 = if f { y1 } else { fmod(0 - y0) };
    assert(r0 < p && r1 < p);
    assert(p % 2 == 1);
    if r0 != 0 {
        vstd::arithmetic::div_mod::lemma_fundamental_div_mod_converse(0 - r0, p as int, -1, (p - r0) as int);
    }
    if r1 != 0 {
        vstd::arithmetic::div_mod::lemma_fundamental_div_mod_converse(0 - r1, p as int, -1, (p - r1) as int);
    }
    lemma_small_mod(0, p);
}

} // verus!
