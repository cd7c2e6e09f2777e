//! Elementary number theory for a prime modulus: Euclid's lemma, the
//! binomial theorem and Fermat's little theorem.
use vstd::prelude::*;
use vstd::arithmetic::power::pow;
use vstd::arithmetic::div_mod::{
    lemma_add_mod_noop, lemma_fundamental_div_mod, lemma_mod_multiples_vanish, lemma_mul_mod_noop_left,
    lemma_mul_mod_noop_right, lemma_small_mod, lemma_sub_mod_noop,
};

verus! {

/// `n` is prime: above one, and no integer strictly between one and `n`
/// divides it.
pub open spec fn is_prime(n: nat) -> bool {
    n > 1 && forall|d: nat| 1 < d < n ==> #[trigger] (n % d) != 0
}

/// The greatest common divisor by Euclid's algorithm.
pub open spec fn gcd(x: nat, y: nat) -> nat
    decreases y,
{
    if y == 0 {
        x
    } else {
        gcd(y, x % y)
    }
}

/// The gcd divides both arguments, and is positive when one of them is.
pub proof fn lemma_gcd_divides(x: nat, y: nat)
    requires
        x > 0 || y > 0,
    ensures
        gcd(x, y) > 0,
        x % gcd(x, y) == 0,
        y % gcd(x, y) == 0,
    decreases y,
{
    if y == 0 {
        vstd::arithmetic::div_mod::lemma_mod_self_0(x as int);
        assert(0nat % x == 0) by {
            lemma_small_mod(0, x);
        }
    } else {
        lemma_gcd_divides(y, x % y);
        let g = gcd(x, y);
        lemma_fundamental_div_mod(x as int, y as int);
        let q = (x / y) as int;
        // x = q * y + x % y, and g divides y and x % y
        assert(y % g == 0 && (x % y) % g == 0);
        lemma_fundamental_div_mod(y as int, g as int);
        lemma_fundamental_div_mod((x % y) as int, g as int);
        let ky = (y / g) as int;
        let kr = ((x % y) / g) as int;
        assert(x as int == (q * ky + kr) * g) by (nonlinear_arith)
            requires
                x as int == y * q + (x % y),
                y as int == g * ky,
                (x % y) as int == g * kr,
        ;
        lemma_mod_multiples_vanish(q * ky + kr, 0, g as int);
        assert((q * ky + kr) * g == g * (q * ky + kr)) by (nonlinear_arith);
    }
}

/// If `q` divides `x * b` and `y * b`, it divides `gcd(x, y) * b`.
pub proof fn lemma_gcd_mul_divisible(q: nat, x: nat, y: nat, b: int)
    requires
        q > 0,
        (x * b) % (q as int) == 0,
        (y * b) % (q as int) == 0,
    ensures
        (gcd(x, y) * b) % (q as int) == 0,
    decreases y,
{
    if y > 0 {
        let m = q as int;
        lemma_fundamental_div_mod(x as int, y as int);
        let k = (x / y) as int;
        let r = (x % y) as int;
        assert(r * b == x * b - k * (y * b)) by (nonlinear_arith)
            requires
                x as int == y * k + r,
        ;
        lemma_sub_mod_noop(x * b, k * (y * b), m);
        lemma_mul_mod_noop_right(k, y * b, m);
        assert(k * 0 == 0);
        lemma_small_mod(0, q);
        assert((r * b) % m == 0);
        lemma_gcd_mul_divisible(q, y, x % y, b);
    }
}

/// Euclid's lemma: a prime dividing a product divides one of the factors.
pub proof fn lemma_euclid(q: nat, a: int, b: int)
    requires
        is_prime(q),
        (a * b) % (q as int) == 0,
    ensures
        a % (q as int) == 0 || b % (q as int) == 0,
{
    let m = q as int;
    let ar = (a % m) as nat;
    if ar != 0 {
        lemma_mul_mod_noop_left(a, b, m);
        assert((ar * b) % m == 0);
        assert((q * b) % m == 0) by {
            lemma_mod_multiples_vanish(b, 0, m);
            assert(q * b == m * b + 0);
        }
        lemma_gcd_mul_divisible(q, q, ar, b);
        lemma_gcd_divides(q, ar);
        let g = gcd(q, ar);
        // g divides ar, which is below q, so g is below q; q prime makes it 1
        lemma_fundamental_div_mod(ar as int, g as int);
        assert(g <= ar) by (nonlinear_arith)
            requires
                ar as int == g * (ar / g),
                ar > 0,
                g > 0,
        ;
        assert(ar < q);
        if g > 1 {
            assert(q % g != 0);
        }
        assert(g == 1);
        assert(1 * b == b);
    }
}

/// The binomial coefficient, by Pascal's rule.
pub open spec fn binom(n: nat, k: nat) -> nat
    decreases n,
{
    if k == 0 {
        1
    } else if n == 0 {
        0
    } else {
        binom((n - 1) as nat, (k - 1) as nat) + binom((n - 1) as nat, k)
    }
}

/// `C(n, k)` is zero above `n`, and `C(n, n)` is one.
pub proof fn lemma_binom_top(n: nat, k: nat)
    ensures
        k > n ==> binom(n, k) == 0,
        binom(n, n) == 1,
    decreases n,
{
    if n > 0 {
        lemma_binom_top((n - 1) as nat, (k - 1) as nat);
        lemma_binom_top((n - 1) as nat, k);
        lemma_binom_top((n - 1) as nat, n);
    }
}

/// Absorption: `k * C(n, k) == n * C(n - 1, k - 1)`.
pub proof fn lemma_binom_absorb(n: nat, k: nat)
    requires
        n >= 1,
        k >= 1,
    ensures
        k * binom(n, k) == n * binom((n - 1) as nat, (k - 1) as nat),
    decreases n,
{
    let a = binom((n - 1) as nat, (k - 1) as nat);
    let b = binom((n - 1) as nat, k);
    assert(binom(n, k) == a + b);
    if n == 1 {
        lemma_binom_top(0, k);
        if k == 1 {
            assert(a == 1 && b == 0);
            assert(k * (a + b) == n * a) by (nonlinear_arith)
                requires k == 1, n == 1, a == 1, b == 0;
        } else {
            lemma_binom_top(0, (k - 1) as nat);
            assert(a == 0 && b == 0);
            assert(k * (a + b) == n * a) by (nonlinear_arith)
                requires a == 0, b == 0;
        }
    } else {
        // k * b == (n - 1) * C(n - 2, k - 1)
        lemma_binom_absorb((n - 1) as nat, k);
        if k == 1 {
            assert(a == 1);
            assert(binom((n - 2) as nat, 0) == 1);
            assert(k * (a + b) == n * a) by (nonlinear_arith)
                requires
                    k == 1,
                    a == 1,
                    k * b == (n - 1) * 1,
            ;
        } else {
            // (k - 1) * a == (n - 1) * C(n - 2, k - 2)
            lemma_binom_absorb((n - 1) as nat, (k - 1) as nat);
            let c = binom((n - 2) as nat, (k - 2) as nat);
            let d = binom((n - 2) as nat, (k - 1) as nat);
            assert(a == c + d);
            assert(k * (a + b) == n * a) by (nonlinear_arith)
                requires
                    k * b == (n - 1) * d,
                    (k - 1) * a == (n - 1) * c,
                    a == c + d,
            ;
        }
    }
}

/// A prime `q` divides `C(q, k)` for `0 < k < q`.
pub proof fn lemma_prime_divides_binom(q: nat, k: nat)
    requires
        is_prime(q),
        0 < k < q,
    ensures
        binom(q, k) % q == 0,
{
    let m = q as int;
    lemma_binom_absorb(q, k);
    let c = binom((q - 1) as nat, (k - 1) as nat);
    assert((k * binom(q, k)) as int == m * c);
    lemma_mod_multiples_vanish(c as int, 0, m);
    lemma_small_mod(0, q);
    assert(((k as int) * (binom(q, k) as int)) % m == 0);
    lemma_euclid(q, k as int, binom(q, k) as int);
    lemma_small_mod(k, q);
}

/// `sum_{j < k} C(n, j) * x^j`.
pub open spec fn binom_sum(x: int, n: nat, k: nat) -> int
    decreases k,
{
    if k == 0 {
        0
    } else {
        binom_sum(x, n, (k - 1) as nat) + binom(n, (k - 1) as nat) * pow(x, (k - 1) as nat)
    }
}

/// The first partial sum is one.
pub proof fn lemma_binom_sum_one(x: int, n: nat)
    ensures
        binom_sum(x, n, 1) == 1,
{
    reveal(pow);
    assert(binom_sum(x, n, 0) == 0);
    assert(binom(n, 0) == 1);
    assert(pow(x, 0) == 1);
    assert(binom_sum(x, n, 1) == binom_sum(x, n, 0) + binom(n, 0) * pow(x, 0));
}

/// Pascal's rule on the partial sums.
pub proof fn lemma_binom_sum_pascal(x: int, n: nat, k: nat)
    ensures
        binom_sum(x, n + 1, k + 1) == binom_sum(x, n, k + 1) + x * binom_sum(x, n, k),
    decreases k,
{
    reveal(pow);
    if k == 0 {
        assert(pow(x, 0) == 1);
        lemma_binom_sum_one(x, n + 1);
        lemma_binom_sum_one(x, n);
        assert(x * binom_sum(x, n, 0) == 0);
    } else {
        lemma_binom_sum_pascal(x, n, (k - 1) as nat);
        let s1 = binom_sum(x, n, (k - 1) as nat);
        let s2 = binom_sum(x, n, k);
        let c0 = binom(n, (k - 1) as nat) as int;
        let c1 = binom(n, k) as int;
        let pk1 = pow(x, (k - 1) as nat);
        let pk = pow(x, k);
        assert(pk == x * pk1);
        assert(binom((n + 1) as nat, k) == c0 + c1);
        assert(s2 == s1 + c0 * pk1);
        assert(binom_sum(x, n + 1, k + 1) == binom_sum(x, n + 1, k) + (c0 + c1) * pk);
        assert(binom_sum(x, n + 1, k) == s2 + x * s1);
        assert(binom_sum(x, n, k + 1) == s2 + c1 * pk);
        assert(s2 + x * s1 + (c0 + c1) * pk == s2 + c1 * pk + x * s2) by (nonlinear_arith)
            requires
                s2 == s1 + c0 * pk1,
                pk == x * pk1,
        ;
    }
}

/// The binomial theorem: `(x + 1)^n == sum_{j <= n} C(n, j) * x^j`.
pub proof fn lemma_binomial(x: int, n: nat)
    ensures
        pow(x + 1, n) == binom_sum(x, n, n + 1),
    decreases n,
{
    reveal(pow);
    if n == 0 {
        assert(pow(x, 0) == 1);
        lemma_binom_sum_one(x, 0);
    } else {
        let m = (n - 1) as nat;
        lemma_binomial(x, m);
        lemma_binom_sum_pascal(x, m, n);
        lemma_binom_top(m, n);
        let s = binom_sum(x, m, n);
        assert(binom_sum(x, m, n + 1) == s + binom(m, n) * pow(x, n));
        assert(binom(m, n) * pow(x, n) == 0);
        assert(pow(x + 1, n) == (x + 1) * pow(x + 1, m));
        assert(binom_sum(x, n, n + 1) == s + x * s);
        assert((x + 1) * s == s + x * s) by (nonlinear_arith);
    }
}

/// Modulo a prime `q`, the partial sums up to `k <= q` are one.
pub proof fn lemma_binom_sum_mod_prime(x: int, q: nat, k: nat)
    requires
        is_prime(q),
        1 <= k <= q,
    ensures
        binom_sum(x, q, k) % (q as int) == 1,
    decreases k,
{
    let m = q as int;
    reveal(pow);
    if k == 1 {
        assert(pow(x, 0) == 1);
        lemma_binom_sum_one(x, q);
        lemma_small_mod(1, q);
    } else {
        let j = (k - 1) as nat;
        lemma_binom_sum_mod_prime(x, q, j);
        lemma_prime_divides_binom(q, j);
        let c = binom(q, j) as int;
        let t = c * pow(x, j);
        lemma_mul_mod_noop_left(c, pow(x, j), m);
        assert(c % m == 0);
        assert(0 * pow(x, j) == 0);
        lemma_small_mod(0, q);
        assert(t % m == 0);
        lemma_add_mod_noop(binom_sum(x, q, j), t, m);
        lemma_small_mod(1, q);
    }
}

/// Fermat's little theorem: `a^q == a (mod q)` for a prime `q`.
pub proof fn lemma_fermat(q: nat, a: nat)
    requires
        is_prime(q),
    ensures
        pow(a as int, q) % (q as int) == (a as int) % (q as int),
    decreases a,
{
    let m = q as int;
    if a == 0 {
        vstd::arithmetic::power::lemma0_pow(q);
    } else {
        let b = (a - 1) as nat;
        lemma_fermat(q, b);
        lemma_binomial(b as int, q);
        lemma_binom_sum_mod_prime(b as int, q, q);
        lemma_binom_top(q, q);
        assert(binom_sum(b as int, q, q + 1) == binom_sum(b as int, q, q) + binom(q, q) * pow(b as int, q));
        assert(binom(q, q) * pow(b as int, q) == pow(b as int, q));
        lemma_add_mod_noop(binom_sum(b as int, q, q), pow(b as int, q), m);
        lemma_add_mod_noop(1, b as int, m);
        lemma_small_mod(1, q);
        assert((b as int) + 1 == a as int);
    }
}

/// Fermat's little theorem for a unit: `a^(q-1) == 1 (mod q)` when the
/// prime `q` does not divide `a`.
pub proof fn lemma_fermat_unit(q: nat, a: int)
    requires
        is_prime(q),
        a % (q as int) != 0,
    ensures
        pow(a, (q - 1) as nat) % (q as int) == 1,
{
    let m = q as int;
    let ar = (a % m) as nat;
    let e = (q - 1) as nat;
    lemma_fermat(q, ar);
    vstd::arithmetic::power::lemma_pow_mod_noop(a, e, m);
    vstd::arithmetic::power::lemma_pow_mod_noop(ar as int, e, m);
    vstd::arithmetic::div_mod::lemma_mod_twice(a, m);
    assert(pow(ar as int, q) == ar * pow(ar as int, e)) by {
        reveal(pow);
    }
    let w = pow(ar as int, e);
    // ar * (w - 1) == 0 (mod q)
    lemma_small_mod(ar, q);
    assert((ar * w) % m == (ar as int) % m);
    assert(ar * (w - 1) == ar * w - ar) by (nonlinear_arith);
    lemma_sub_mod_noop(ar * w, ar as int, m);
    lemma_small_mod(0, q);
    assert(((ar as int) * (w - 1)) % m == 0);
    lemma_euclid(q, ar as int, w - 1);
    lemma_sub_mod_noop(w, 1, m);
    lemma_small_mod(1, q);
    // w % m == 1, and pow(a, e) % m == pow(ar, e) % m == w % m
    assert((w - 1) % m == 0);
    let r = w % m;
    assert((r - 1int % m) % m == 0);
    assert(0 <= r < m);
    if r == 0 {
        vstd::arithmetic::div_mod::lemma_fundamental_div_mod_converse(-1, m, -1, m - 1);
        assert((r - 1) % m == m - 1);
    }
    assert(r >= 1);
    lemma_small_mod((r - 1) as nat, q);
    assert(r == 1);
}

/// `b^e mod m` by square-and-multiply, one level per bit of `e`.
#[verifier::opaque]
pub open spec fn pow_mod(b: nat, e: nat, m: nat) -> nat
    decreases e,
{
    if e == 0 {
        1nat % m
    } else {
        let h = pow_mod(b, e / 2, m);
        if e % 2 == 0 {
            (h * h) % m
        } else {
            (b * ((h * h) % m)) % m
        }
    }
}

/// One level of `pow_mod`, from the value `h` one bit up.
pub proof fn lemma_pow_mod_step(b: nat, e: nat, m: nat, h: nat)
    requires
        e > 0,
        pow_mod(b, e / 2, m) == h,
    ensures
        pow_mod(b, e, m) == (if e % 2 == 0 { (h * h) % m } else { (b * ((h * h) % m)) % m }),
{
    reveal(pow_mod);
}

/// One level of `pow_mod` with the division spelled out: `e == 2 * e2 +
/// bit`, `h * h == k1 * m + r1`, and for an odd `e`, `b * r1 == k2 * m + v`.
pub proof fn lemma_pow_mod_bit(b: nat, e: nat, m: nat, e2: nat, bit: nat, h: nat, k1: nat, r1: nat, k2: nat, v: nat)
    requires
        m > 0,
        e == 2 * e2 + bit,
        bit == 0 || bit == 1,
        e > 0,
        pow_mod(b, e2, m) == h,
        h * h == k1 * m + r1,
        r1 < m,
        bit == 0 ==> v == r1,
        bit == 1 ==> b * r1 == k2 * m + v && v < m,
    ensures
        pow_mod(b, e, m) == v,
{
    assert(e / 2 == e2 && e % 2 == bit);
    lemma_pow_mod_step(b, e, m, h);
    vstd::arithmetic::div_mod::lemma_fundamental_div_mod_converse((h * h) as int, m as int, k1 as int, r1 as int);
    if bit == 1 {
        vstd::arithmetic::div_mod::lemma_fundamental_div_mod_converse((b * r1) as int, m as int, k2 as int, v as int);
    }
}

/// `b^0 mod m` is `1 mod m`.
pub proof fn lemma_pow_mod_zero(b: nat, m: nat)
    ensures
        pow_mod(b, 0, m) == 1nat % m,
{
    reveal(pow_mod);
}

/// Square-and-multiply computes the power modulo `m`.
pub proof fn lemma_pow_mod(b: nat, e: nat, m: nat)
    requires
        m > 0,
    ensures
        pow_mod(b, e, m) as int == pow(b as int, e) % (m as int),
    decreases e,
{
    reveal(pow_mod);
    let mi = m as int;
    if e == 0 {
        reveal(pow);
    } else {
        let h = e / 2;
        lemma_pow_mod(b, h, m);
        vstd::arithmetic::power::lemma_pow_adds(b as int, h, h);
        let x = pow(b as int, h);
        lemma_mul_mod_noop_left(x, x, mi);
        lemma_mul_mod_noop_right(x % mi, x, mi);
        assert(((x % mi) * (x % mi)) % mi == (x * x) % mi);
        if e % 2 == 0 {
            assert(h + h == e);
        } else {
            assert(h + h + 1 == e);
            vstd::arithmetic::power::lemma_pow_adds(b as int, h + h, 1);
            vstd::arithmetic::power::lemma_pow1(b as int);
            lemma_mul_mod_noop_right(b as int, x * x, mi);
            assert(pow(b as int, e) == (x * x) * b);
            assert((x * x) * b == b * (x * x)) by (nonlinear_arith);
        }
    }
}

/// `x` is divisible by `d` when `x` is `d` times something.
pub proof fn lemma_divides_mul(d: int, k: int)
    requires
        d > 0,
    ensures
        (d * k) % d == 0,
        (k * d) % d == 0,
{
    lemma_mod_multiples_vanish(k, 0, d);
    lemma_small_mod(0, d as nat);
    assert(k * d == d * k) by (nonlinear_arith);
}

/// Divisibility is transitive.
pub proof fn lemma_divides_trans(n: int, d: int, r: int)
    requires
        d > 0,
        r > 0,
        n % d == 0,
        d % r == 0,
    ensures
        n % r == 0,
{
    lemma_fundamental_div_mod(n, d);
    lemma_fundamental_div_mod(d, r);
    let k = n / d;
    let j = d / r;
    assert(n == r * (j * k)) by (nonlinear_arith)
        requires
            n == d * k,
            d == r * j,
    ;
    lemma_divides_mul(r, j * k);
}

/// If `b^x` and `b^y` are one modulo `r`, so is `b^gcd(x, y)`.
pub proof fn lemma_pow_gcd(b: int, x: nat, y: nat, r: nat)
    requires
        r > 1,
        pow(b, x) % (r as int) == 1,
        pow(b, y) % (r as int) == 1,
    ensures
        pow(b, gcd(x, y)) % (r as int) == 1,
    decreases y,
{
    if y > 0 {
        let m = r as int;
        let k = x / y;
        let s = x % y;
        lemma_fundamental_div_mod(x as int, y as int);
        assert(x == y * k + s);
        vstd::arithmetic::power::lemma_pow_adds(b, y * k, s);
        vstd::arithmetic::power::lemma_pow_multiplies(b, y, k);
        let py = pow(b, y);
        let pk = pow(py, k);
        // pk == 1 (mod r)
        vstd::arithmetic::power::lemma_pow_mod_noop(py, k, m);
        vstd::arithmetic::power::lemma1_pow(k);
        lemma_small_mod(1, r);
        assert(pk % m == 1);
        let w = pow(b, s);
        assert(pow(b, x) == pk * w);
        lemma_mul_mod_noop_left(pk, w, m);
        assert(w % m == 1);
        lemma_pow_gcd(b, y, s, r);
    }
}

/// A prime factor of `n`, at most `n`.
pub proof fn lemma_prime_factor(n: nat) -> (r: nat)
    requires
        n > 1,
    ensures
        is_prime(r),
        n % r == 0,
        r <= n,
    decreases n,
{
    if is_prime(n) {
        vstd::arithmetic::div_mod::lemma_mod_self_0(n as int);
        n
    } else {
        let d = choose|d: nat| 1 < d < n && #[trigger] (n % d) == 0;
        let r = lemma_prime_factor(d);
        lemma_divides_trans(n as int, d as int, r as int);
        r
    }
}

/// A composite `n` has a prime factor whose square is at most `n`.
pub proof fn lemma_small_prime_factor(n: nat) -> (r: nat)
    requires
        n > 1,
        !is_prime(n),
    ensures
        is_prime(r),
        n % r == 0,
        r * r <= n,
{
    let d = choose|d: nat| 1 < d < n && #[trigger] (n % d) == 0;
    lemma_fundamental_div_mod(n as int, d as int);
    let e = n / d;
    assert(n == d * e);
    assert(e > 1) by (nonlinear_arith)
        requires n == d * e, d < n, e >= 0;
    assert(e < n) by (nonlinear_arith)
        requires n == d * e, d > 1, n > 1;
    let small = if d <= e { d } else { e };
    assert(n % small == 0) by {
        if d > e {
            lemma_divides_mul(e as int, d as int);
        }
    }
    assert(small * small <= n) by (nonlinear_arith)
        requires n == d * e, small == d || small == e, small <= d, small <= e, small > 1;
    let r = lemma_prime_factor(small);
    lemma_divides_trans(n as int, small as int, r as int);
    assert(r * r <= n) by (nonlinear_arith)
        requires r <= small, small * small <= n;
    r
}

/// Trial division: `n` is prime when no integer in `2..=s` divides it and
/// `(s + 1)^2 > n`.
pub proof fn lemma_prime_by_trial(n: nat, s: nat)
    requires
        n > 1,
        (s + 1) * (s + 1) > n,
        forall|d: nat| 2 <= d <= s ==> #[trigger] (n % d) != 0,
    ensures
        is_prime(n),
{
    if !is_prime(n) {
        let r = lemma_small_prime_factor(n);
        assert(r <= s) by (nonlinear_arith)
            requires r * r <= n, (s + 1) * (s + 1) > n, r > 1;
        assert(n % r != 0);
    }
}

/// The residue of `a^((n-1)/q) - 1` modulo `n`.
pub open spec fn pock_residue(n: nat, q: nat, a: nat) -> nat {
    ((pow_mod(a, ((n - 1) as nat / q) as nat, n) + n - 1) as nat % n) as nat
}

/// The Pocklington step: for a prime `q` dividing `n - 1`, a base `a` with
/// `a^(n-1) == 1 (mod n)` and `a^((n-1)/q) - 1` invertible modulo `n` (by
/// `u`), every prime factor `r` of `n` has `q` dividing `r - 1`.
pub proof fn lemma_pocklington_step(n: nat, q: nat, a: nat, u: nat, r: nat)
    requires
        n > 1,
        is_prime(q),
        is_prime(r),
        n % r == 0,
        (n - 1) as nat % q == 0,
        pow_mod(a, (n - 1) as nat, n) == 1,
        (pock_residue(n, q, a) * u) % n == 1,
    ensures
        (r - 1) as nat % q == 0,
{
    let m = r as int;
    let e = ((n - 1) as nat / q) as nat;
    lemma_fundamental_div_mod((n - 1) as int, q as int);
    assert((n - 1) as nat == q * e);
    lemma_pow_mod(a, (n - 1) as nat, n);
    lemma_pow_mod(a, e, n);
    let b = pow(a as int, e);
    vstd::arithmetic::power::lemma_pow_multiplies(a as int, e, q);
    assert(e * q == (n - 1) as nat) by (nonlinear_arith)
        requires (n - 1) as nat == q * e;
    // b^q == a^(n-1) == 1 (mod r), since r divides n
    let big = pow(a as int, (n - 1) as nat);
    lemma_fundamental_div_mod(n as int, m);
    let nk = (n / r) as int;
    lemma_fundamental_div_mod(big, n as int);
    assert(big == m * (nk * (big / (n as int))) + 1) by (nonlinear_arith)
        requires big == (n as int) * (big / (n as int)) + 1, n as int == m * nk;
    lemma_mod_multiples_vanish(nk * (big / (n as int)), 1, m);
    lemma_small_mod(1, r);
    assert(pow(b, q) % m == 1);
    // r does not divide b - 1: otherwise r divides (b - 1) mod n and n, so their gcd
    let c = ((pow_mod(a, e, n) + n - 1) as nat % n) as nat;
    if (b - 1) % m == 0 {
        let bm = b % (n as int);
        assert(pow_mod(a, e, n) == bm);
        lemma_fundamental_div_mod(b, n as int);
        lemma_fundamental_div_mod((bm + n - 1) as int, n as int);
        let t = (bm + n - 1) / (n as int);
        // c == b - 1 - (b / n) * n + n - t * n, a multiple of r away from b - 1
        assert(c as int == (b - 1) + (n as int) * (1 - t - b / (n as int))) by (nonlinear_arith)
            requires
                b == (n as int) * (b / (n as int)) + bm,
                (bm + n - 1) as int == (n as int) * t + c,
        ;
        lemma_fundamental_div_mod(b - 1, m);
        assert(c as int == m * ((b - 1) / m + nk * (1 - t - b / (n as int)))) by (nonlinear_arith)
            requires
                c as int == (b - 1) + (n as int) * (1 - t - b / (n as int)),
                b - 1 == m * ((b - 1) / m) + 0,
                n as int == m * nk,
        ;
        let cq = (b - 1) / m + nk * (1 - t - b / (n as int));
        assert(c == pock_residue(n, q, a));
        lemma_fundamental_div_mod((c * u) as int, n as int);
        let t2 = ((c * u) / n) as int;
        assert(1int == m * (cq * u - nk * t2)) by (nonlinear_arith)
            requires
                c as int == m * cq,
                (c * u) as int == (n as int) * t2 + 1,
                n as int == m * nk,
        ;
        lemma_divides_mul(m, cq * u - nk * t2);
        lemma_small_mod(1, r);
        assert(false);
    }
    // r does not divide b: b^q would be zero modulo r
    if b % m == 0 {
        assert(pow(b, q) == b * pow(b, (q - 1) as nat)) by {
            reveal(pow);
        }
        lemma_mul_mod_noop_left(b, pow(b, (q - 1) as nat), m);
        assert(0 * pow(b, (q - 1) as nat) == 0);
        lemma_small_mod(0, r);
        assert(false);
    }
    lemma_fermat_unit(r, b);
    lemma_pow_gcd(b, q, (r - 1) as nat, r);
    let g = gcd(q, (r - 1) as nat);
    lemma_gcd_divides(q, (r - 1) as nat);
    if g < q {
        if g > 1 {
            assert(q % g != 0);
        }
        assert(g == 1);
        vstd::arithmetic::power::lemma_pow1(b);
        lemma_sub_mod_noop(b, 1, m);
        lemma_small_mod(1, r);
        lemma_small_mod(0, r);
        assert(false);
    }
    assert(g == q) by {
        lemma_fundamental_div_mod(q as int, g as int);
        assert(g <= q) by (nonlinear_arith)
            requires q as int == g * (q / g), q > 0, g > 0;
    }
}

/// Pocklington's criterion with one prime: `n` is prime when a prime `q`
/// with `q^2 > n` divides `n - 1` and a base `a` passes the step's tests.
pub proof fn lemma_pocklington(n: nat, q: nat, a: nat, u: nat)
    requires
        n > 1,
        is_prime(q),
        q * q > n,
        (n - 1) as nat % q == 0,
        pow_mod(a, (n - 1) as nat, n) == 1,
        (pock_residue(n, q, a) * u) % n == 1,
    ensures
        is_prime(n),
{
    if !is_prime(n) {
        let r = lemma_small_prime_factor(n);
        lemma_pocklington_step(n, q, a, u, r);
        lemma_fundamental_div_mod((r - 1) as int, q as int);
        let k = ((r - 1) as nat / q) as int;
        assert(q < r) by (nonlinear_arith)
            requires (r - 1) as int == q * k, r > 1, q > 0, k >= 0;
        assert(q * q < r * r) by (nonlinear_arith)
            requires q < r, q > 0;
    }
}

/// Pocklington's criterion with two distinct primes `q1`, `q2` dividing
/// `n - 1`, whose product squared exceeds `n`.
pub proof fn lemma_pocklington2(n: nat, q1: nat, q2: nat, a: nat, u1: nat, u2: nat)
    requires
        n > 1,
        is_prime(q1),
        is_prime(q2),
        q1 != q2,
        (q1 * q2) * (q1 * q2) > n,
        (n - 1) as nat % q1 == 0,
        (n - 1) as nat % q2 == 0,
        pow_mod(a, (n - 1) as nat, n) == 1,
        (pock_residue(n, q1, a) * u1) % n == 1,
        (pock_residue(n, q2, a) * u2) % n == 1,
    ensures
        is_prime(n),
{
    if !is_prime(n) {
        let r = lemma_small_prime_factor(n);
        lemma_pocklington_step(n, q1, a, u1, r);
        lemma_pocklington_step(n, q2, a, u2, r);
        lemma_fundamental_div_mod((r - 1) as int, q1 as int);
        let k = ((r - 1) as nat / q1) as int;
        assert((r - 1) as int == q1 * k);
        assert(((q1 as int) * k) % (q2 as int) == 0);
        lemma_euclid(q2, q1 as int, k);
        if (q1 as int) % (q2 as int) == 0 {
            if q2 > q1 {
                lemma_small_mod(q1, q2);
            } else {
                assert(q1 % q2 != 0);
            }
            assert(false);
        }
        lemma_fundamental_div_mod(k, q2 as int);
        let j = k / (q2 as int);
        assert((r - 1) as int == (q1 * q2) * j) by (nonlinear_arith)
            requires (r - 1) as int == q1 * k, k == q2 * j;
        let f = q1 * q2;
        assert(f > 0) by (nonlinear_arith)
            requires f == q1 * q2, q1 > 1, q2 > 1;
        assert(f < r) by (nonlinear_arith)
            requires (r - 1) as int == f * j, r > 1, f > 0, j >= 0;
        assert(f * f < r * r) by (nonlinear_arith)
            requires f < r, f > 0;
    }
}

/// No integer in `d..=s` divides `n`.
pub open spec fn no_divisor_from(n: nat, d: nat, s: nat) -> bool
    decreases s + 1 - d,
{
    if d > s {
        true
    } else {
        n % d != 0 && no_divisor_from(n, d + 1, s)
    }
}

/// `no_divisor_from` spelled out as a quantifier.
pub proof fn lemma_no_divisor_from(n: nat, d: nat, s: nat)
    requires
        no_divisor_from(n, d, s),
    ensures
        forall|k: nat| d <= k <= s ==> #[trigger] (n % k) != 0,
    decreases s + 1 - d,
{
    if d <= s {
        lemma_no_divisor_from(n, d + 1, s);
    }
}

} // verus!
