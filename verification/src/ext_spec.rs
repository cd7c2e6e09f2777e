//! The mathematical model of GF(p^2): pairs `(re, im)` of residues, with
//! the product of `GF(p)[i] / (i^2 + 1)`, and its ring laws.
use vstd::prelude::*;
use crate::field_spec::modulus;

verus! {

/// The integer `x` reduced into `[0, p)`.
pub open spec fn fmod(x: int) -> nat {
    (x % (modulus() as int)) as nat
}

/// The product `(a + b i)(c + d i) = (ac - bd) + (ad + bc) i`, reduced.
pub open spec fn f2mul(x: (nat, nat), y: (nat, nat)) -> (nat, nat) {
    (fmod(x.0 * y.0 - x.1 * y.1), fmod((x.0 * y.1 + x.1 * y.0) as int))
}

/// The unit `1 + 0 i`.
pub open spec fn f2one() -> (nat, nat) {
    (1, 0)
}

/// `x^e` in GF(p^2).
pub open spec fn f2pow(x: (nat, nat), e: nat) -> (nat, nat)
    decreases e,
{
    if e == 0 {
        f2one()
    } else {
        f2mul(f2pow(x, (e - 1) as nat), x)
    }
}

/// Reducing the factors or terms first does not change a result mod `p`.
pub proof fn lemma_mod_ops(x: int, y: int)
    ensures
        ((x % (modulus() as int)) * (y % (modulus() as int))) % (modulus() as int) == (x * y) % (modulus() as int),
        ((x % (modulus() as int)) + (y % (modulus() as int))) % (modulus() as int) == (x + y) % (modulus() as int),
        ((x % (modulus() as int)) - (y % (modulus() as int))) % (modulus() as int) == (x - y) % (modulus() as int),
{
    let m = modulus() as int;
    vstd::arithmetic::div_mod::lemma_mul_mod_noop(x, y, m);
    vstd::arithmetic::div_mod::lemma_add_mod_noop(x, y, m);
    vstd::arithmetic::div_mod::lemma_sub_mod_noop(x, y, m);
}

/// `fmod(fmod(u) * z - fmod(v) * w) == fmod(u * z - v * w)`.
pub proof fn lemma_fmod_lin(u: int, v: int, z: int, w: int)
    ensures
        fmod(fmod(u) * z - fmod(v) * w) == fmod(u * z - v * w),
        fmod(fmod(u) * z + fmod(v) * w) == fmod(u * z + v * w),
{
    let m = modulus() as int;
    vstd::arithmetic::div_mod::lemma_mul_mod_noop_left(u, z, m);
    vstd::arithmetic::div_mod::lemma_mul_mod_noop_left(v, w, m);
    lemma_mod_ops(fmod(u) * z, fmod(v) * w);
    lemma_mod_ops(u * z, v * w);
}

/// The product is commutative.
pub proof fn lemma_f2mul_comm(x: (nat, nat), y: (nat, nat))
    ensures
        f2mul(x, y) == f2mul(y, x),
{
    assert(x.0 * y.0 - x.1 * y.1 == y.0 * x.0 - y.1 * x.1) by (nonlinear_arith);
    assert(x.0 * y.1 + x.1 * y.0 == y.0 * x.1 + y.1 * x.0) by (nonlinear_arith);
}

/// The product is associative.
pub proof fn lemma_f2mul_assoc(x: (nat, nat), y: (nat, nat), z: (nat, nat))
    ensures
        f2mul(f2mul(x, y), z) == f2mul(x, f2mul(y, z)),
{
    let (a, b) = (x.0 as int, x.1 as int);
    let (c, d) = (y.0 as int, y.1 as int);
    let (e, f) = (z.0 as int, z.1 as int);
    let u = a * c - b * d;
    let v = a * d + b * c;
    let s = c * e - d * f;
    let t = c * f + d * e;
    lemma_fmod_lin(u, v, e, f);
    lemma_fmod_lin(u, v, f, e);
    lemma_fmod_lin(s, t, a, b);
    lemma_fmod_lin(t, s, a, b);
    let fs = fmod(s) as int;
    let ft = fmod(t) as int;
    assert(a * fs - b * ft == fs * a - ft * b) by (nonlinear_arith);
    assert(a * ft + b * fs == ft * a + fs * b) by (nonlinear_arith);
    lemma_expand(a, b, c, d, e, f);
}

/// One is a unit on reduced pairs.
pub proof fn lemma_f2mul_one(x: (nat, nat))
    requires
        x.0 < modulus(),
        x.1 < modulus(),
    ensures
        f2mul(x, f2one()) == x,
        f2mul(f2one(), x) == x,
{
    vstd::arithmetic::div_mod::lemma_small_mod(x.0, modulus());
    vstd::arithmetic::div_mod::lemma_small_mod(x.1, modulus());
}

/// Powers add: `x^a * x^b == x^(a + b)`.
pub proof fn lemma_f2pow_add(x: (nat, nat), a: nat, b: nat)
    requires
        x.0 < modulus(),
        x.1 < modulus(),
    ensures
        f2mul(f2pow(x, a), f2pow(x, b)) == f2pow(x, a + b),
    decreases b,
{
    if b == 0 {
        lemma_f2pow_reduced(x, a);
        lemma_f2mul_one(f2pow(x, a));
    } else {
        lemma_f2pow_add(x, a, (b - 1) as nat);
        lemma_f2mul_assoc(f2pow(x, a), f2pow(x, (b - 1) as nat), x);
        assert((a + b - 1) as nat == a + (b - 1) as nat);
    }
}

/// Powers are reduced pairs.
pub proof fn lemma_f2pow_reduced(x: (nat, nat), e: nat)
    ensures
        f2pow(x, e).0 < modulus(),
        f2pow(x, e).1 < modulus(),
    decreases e,
{
    if e > 0 {
        lemma_f2pow_reduced(x, (e - 1) as nat);
    }
}

/// The polynomial identities behind associativity of the product.
proof fn lemma_expand(a: int, b: int, c: int, d: int, e: int, f: int)
    ensures
        (a * c - b * d) * e - (a * d + b * c) * f == (c * e - d * f) * a - (c * f + d * e) * b,
        (a * c - b * d) * f + (a * d + b * c) * e == (c * f + d * e) * a + (c * e - d * f) * b,
{
    assert((a * c - b * d) * e == a * (c * e) - b * (d * e)) by (nonlinear_arith);
    assert((a * d + b * c) * f == a * (d * f) + b * (c * f)) by (nonlinear_arith);
    assert((c * e - d * f) * a == a * (c * e) - a * (d * f)) by (nonlinear_arith);
    assert((c * f + d * e) * b == b * (c * f) + b * (d * e)) by (nonlinear_arith);
    assert((a * c - b * d) * f == a * (c * f) - b * (d * f)) by (nonlinear_arith);
    assert((a * d + b * c) * e == a * (d * e) + b * (c * e)) by (nonlinear_arith);
    assert((c * f + d * e) * a == a * (c * f) + a * (d * e)) by (nonlinear_arith);
    assert((c * e - d * f) * b == b * (c * e) - b * (d * f)) by (nonlinear_arith);
}

/// The product of a sequence of elements, left to right.
pub open spec fn f2prod(s: Seq<(nat, nat)>) -> (nat, nat)
    decreases s.len(),
{
    if s.len() == 0 {
        f2one()
    } else {
        f2mul(f2prod(s.drop_last()), s.last())
    }
}

/// Every element of the sequence is a reduced pair.
pub open spec fn all_reduced(s: Seq<(nat, nat)>) -> bool {
    forall|i: int| 0 <= i < s.len() ==> (#[trigger] s[i]).0 < modulus() && s[i].1 < modulus()
}

/// Products are reduced pairs.
pub proof fn lemma_f2prod_reduced(s: Seq<(nat, nat)>)
    ensures
        f2prod(s).0 < modulus(),
        f2prod(s).1 < modulus(),
    decreases s.len(),
{
    if s.len() > 0 {
        lemma_f2prod_reduced(s.drop_last());
    }
}

/// The product of a sequence splits off its first element.
pub proof fn lemma_f2prod_front(s: Seq<(nat, nat)>)
    requires
        s.len() >= 1,
        all_reduced(s),
    ensures
        f2prod(s) == f2mul(s[0], f2prod(s.subrange(1, s.len() as int))),
    decreases s.len(),
{
    let t = s.subrange(1, s.len() as int);
    if s.len() == 1 {
        assert(s.drop_last() =~= Seq::<(nat, nat)>::empty());
        assert(t =~= Seq::<(nat, nat)>::empty());
        lemma_f2mul_one(s[0]);
    } else {
        let d = s.drop_last();
        lemma_f2prod_front(d);
        assert(d.subrange(1, d.len() as int) =~= t.drop_last());
        assert(t.last() == s.last());
        lemma_f2mul_assoc(s[0], f2prod(t.drop_last()), s.last());
    }
}

/// The product of a concatenation is the product of the products.
pub proof fn lemma_f2prod_append(a: Seq<(nat, nat)>, b: Seq<(nat, nat)>)
    ensures
        f2prod(a + b) == f2mul(f2prod(a), f2prod(b)),
    decreases b.len(),
{
    if b.len() == 0 {
        assert(a + b =~= a);
        lemma_f2prod_reduced(a);
        lemma_f2mul_one(f2prod(a));
    } else {
        assert((a + b).drop_last() =~= a + b.drop_last());
        assert((a + b).last() == b.last());
        lemma_f2prod_append(a, b.drop_last());
        lemma_f2mul_assoc(f2prod(a), f2prod(b.drop_last()), b.last());
    }
}

} // verus!
