//! Byte encodings of GF(p) elements: the canonical 32-byte little-endian
//! form, its range-checked decoding, and the reduction of byte strings of
//! any length.
use vstd::prelude::*;
use vstd::arithmetic::power2::pow2;
use crate::{Fp, NWORDS_FIELD};
use crate::canon::{lemma_modfsb_value, modfsb, redc};
use crate::field_spec::{canonical, fp_value, fp_wf, limbs_val, modulus, mont_r, w1, w2, w3, w4};
use crate::fp::{fp_add, fp_mul, fp_set_zero, nres};
use crate::constants::{lemma_constants, two_256, NRES_C, R2};
use crate::mont::spec_modmul;
use crate::reduce::{spec_modadd, MASK51};

verus! {

/// The limbs after shifting right by `n` bits, and the bits shifted out.
pub open spec fn spec_modshr(n: u32, a: Fp) -> (Fp, u64) {
    ([(a[0] >> n) | ((a[1] << (51 - n) as u32) & 0x7ffffffffffffu64),
      (a[1] >> n) | ((a[2] << (51 - n) as u32) & 0x7ffffffffffffu64),
      (a[2] >> n) | ((a[3] << (51 - n) as u32) & 0x7ffffffffffffu64),
      (a[3] >> n) | ((a[4] << (51 - n) as u32) & 0x7ffffffffffffu64),
      a[4] >> n],
     a[0] & (((1u64 << n) - 1) as u64))
}

/// The limbs after shifting left by `n` bits, limb 4 taking the overflow.
pub open spec fn spec_modshl(n: u32, a: Fp) -> Fp {
    [(a[0] << n) & 0x7ffffffffffffu64,
     ((a[1] << n) & 0x7ffffffffffffu64) | (a[0] >> (51 - n) as u32),
     ((a[2] << n) & 0x7ffffffffffffu64) | (a[1] >> (51 - n) as u32),
     ((a[3] << n) & 0x7ffffffffffffu64) | (a[2] >> (51 - n) as u32),
     (a[4] << n) | (a[3] >> (51 - n) as u32)]
}

/// Shift the positional limbs right by `n` bits; return the bits shifted
/// out of limb 0.
pub(crate) fn modshr(n: u32, a: &mut Fp) -> (r: u64)
    requires
        0 < n <= 51,
    ensures
        (*final(a), r) == spec_modshr(n, *old(a)),
{
    proof {
        crate::bits::lemma_byte_shifts(0, 0, n);
    }
    let r = a[0] & ((1u64 << n) - 1);
    let mut i: usize = 0;
    while i < 4
        invariant
            0 < n <= 51,
            0 <= i <= 4,
            forall|j: int| 0 <= j < i ==> #[trigger] a[j] == (old(a)[j] >> n) | ((old(a)[j + 1] << (51 - n) as u32) & 0x7ffffffffffffu64),
            forall|j: int| i <= j < 5 ==> #[trigger] a[j] == old(a)[j],
        decreases 4 - i,
    {
        a[i] = (a[i] >> n) | ((a[i + 1] << (51 - n)) & MASK51);
        i += 1;
    }
    a[4] >>= n;
    proof {
        assert(*a =~= spec_modshr(n, *old(a)).0);
    }
    r
}

/// Shift the positional limbs left by `n` bits.
pub(crate) fn modshl(n: u32, a: &mut Fp)
    requires
        n <= 51,
    ensures
        *final(a) == spec_modshl(n, *old(a)),
{
    a[4] = (a[4] << n) | (a[3] >> (51 - n));
    let mut i: usize = 3;
    while i > 0
        invariant
            n <= 51,
            0 <= i <= 3,
            a[4] == (old(a)[4] << n) | (old(a)[3] >> (51 - n) as u32),
            forall|j: int| i < j < 4 ==> #[trigger] a[j] == ((old(a)[j] << n) & 0x7ffffffffffffu64) | (old(a)[j - 1] >> (51 - n) as u32),
            forall|j: int| 0 <= j <= i ==> #[trigger] a[j] == old(a)[j],
        decreases i,
    {
        a[i] = ((a[i] << n) & MASK51) | (a[i - 1] >> (51 - n));
        i -= 1;
    }
    a[0] = (a[0] << n) & MASK51;
    proof {
        assert(*a =~= spec_modshl(n, *old(a)));
    }
}

/// Shifting limbs below `2^51` right by one byte divides their value by
/// 256 and hands out the remainder.
pub proof fn lemma_modshr8(a: Fp)
    requires
        a[0] < 0x8000000000000u64,
        a[1] < 0x8000000000000u64,
        a[2] < 0x8000000000000u64,
        a[3] < 0x8000000000000u64,
        a[4] < 0x8000000000000u64,
    ensures
        ({
            let (c, r) = spec_modshr(8, a);
            &&& c[0] < 0x8000000000000u64
            &&& c[1] < 0x8000000000000u64
            &&& c[2] < 0x8000000000000u64
            &&& c[3] < 0x8000000000000u64
            &&& c[4] < 0x8000000000000u64
            &&& r == limbs_val(a) % 256
            &&& limbs_val(c) == limbs_val(a) / 256
        }),
{
    let (c, r) = spec_modshr(8, a);
    assert forall|x: u64, y: u64| x < 0x8000000000000u64 && y < 0x8000000000000u64 implies
        #[trigger] ((x >> 8u32) | ((y << 43u32) & 0x7ffffffffffffu64)) == x / 256 + (y % 256) * 0x80000000000u64
        && ((x >> 8u32) | ((y << 43u32) & 0x7ffffffffffffu64)) < 0x8000000000000u64 by {
        crate::bits::lemma_byte_shifts(x, y, 8);
    }
    let a0 = a[0];
    let a4 = a[4];
    crate::bits::lemma_word_bits(a0, 0);
    crate::bits::lemma_byte_shifts(a4, 0, 8);
    assert(c[0] == a[0] / 256 + (a[1] % 256) * 0x80000000000u64);
    assert(c[1] == a[1] / 256 + (a[2] % 256) * 0x80000000000u64);
    assert(c[2] == a[2] / 256 + (a[3] % 256) * 0x80000000000u64);
    assert(c[3] == a[3] / 256 + (a[4] % 256) * 0x80000000000u64);
    assert(c[4] == a[4] / 256);
    assert(limbs_val(c) * 256 + a[0] % 256 == limbs_val(a));
    vstd::arithmetic::div_mod::lemma_fundamental_div_mod_converse(limbs_val(a) as int, 256, limbs_val(c) as int,
        (a[0] % 256) as int);
}

/// Shifting limbs left by one byte multiplies their value by 256, leaving
/// limbs 0..=3 below `2^51` and the low byte of limb 0 clear.
pub proof fn lemma_modshl8(a: Fp)
    requires
        a[0] < 0x8000000000000u64,
        a[1] < 0x8000000000000u64,
        a[2] < 0x8000000000000u64,
        a[3] < 0x8000000000000u64,
        a[4] < 0x100000000000000u64,
    ensures
        ({
            let c = spec_modshl(8, a);
            &&& c[0] < 0x8000000000000u64 - 255
            &&& c[1] < 0x8000000000000u64
            &&& c[2] < 0x8000000000000u64
            &&& c[3] < 0x8000000000000u64
            &&& limbs_val(c) == 256 * limbs_val(a)
        }),
{
    let c = spec_modshl(8, a);
    assert forall|x: u64, y: u64| x < 0x8000000000000u64 && y < 0x8000000000000u64 implies
        #[trigger] (((x << 8u32) & 0x7ffffffffffffu64) | (y >> 43u32)) == (x % 0x80000000000u64) * 256 + y / 0x80000000000u64
        && (((x << 8u32) & 0x7ffffffffffffu64) | (y >> 43u32)) < 0x8000000000000u64 by {
        crate::bits::lemma_byte_shifts(x, y, 8);
    }
    let a0 = a[0];
    let a3 = a[3];
    let a4 = a[4];
    crate::bits::lemma_byte_shifts(a0, 0, 8);
    crate::bits::lemma_byte_shifts(a4, a3, 8);
    assert(c[1] == (a[1] % 0x80000000000u64) * 256 + a[0] / 0x80000000000u64);
    assert(c[2] == (a[2] % 0x80000000000u64) * 256 + a[1] / 0x80000000000u64);
    assert(c[3] == (a[3] % 0x80000000000u64) * 256 + a[2] / 0x80000000000u64);
}

/// The integer that bytes spell in little-endian order.
#[verifier::opaque]
pub open spec fn le_val(s: Seq<u8>) -> nat
    decreases s.len(),
{
    if s.len() == 0 {
        0
    } else {
        (s[0] + 256 * le_val(s.subrange(1, s.len() as int))) as nat
    }
}

/// Byte `j` of `v` in little-endian order.
pub open spec fn byte_of(v: nat, j: nat) -> u8 {
    ((v / pow2(8 * j)) % 256) as u8
}

/// The canonical radix-`2^51` limbs of `v`.
#[verifier::opaque]
pub open spec fn limbs_of(v: nat) -> Fp {
    [(v % 0x8000000000000) as u64, ((v / w1()) % 0x8000000000000) as u64, ((v / w2()) % 0x8000000000000) as u64,
     ((v / w3()) % 0x8000000000000) as u64, (v / w4()) as u64]
}

/// `k` bytes spell an integer below `2^(8k)`.
pub proof fn lemma_le_val_bound(s: Seq<u8>)
    ensures
        le_val(s) < pow2(8 * s.len()),
    decreases s.len(),
{
    reveal_with_fuel(le_val, 1);
    if s.len() == 0 {
        vstd::arithmetic::power2::lemma2_to64();
    } else {
        let t = s.subrange(1, s.len() as int);
        lemma_le_val_bound(t);
        vstd::arithmetic::power2::lemma_pow2_adds(8, 8 * t.len());
        vstd::arithmetic::power2::lemma2_to64();
        assert(8 * s.len() == 8 + 8 * t.len());
        assert(s[0] + 256 * le_val(t) < 256 * pow2(8 * t.len())) by (nonlinear_arith)
            requires s[0] < 256, le_val(t) < pow2(8 * t.len());
    }
}

/// Bytes that are the little-endian bytes of `v < 2^(8k)` spell `v`.
pub proof fn lemma_le_val_of_bytes(v: nat, s: Seq<u8>)
    requires
        v < pow2(8 * s.len()),
        forall|j: int| 0 <= j < s.len() ==> #[trigger] s[j] == byte_of(v, j as nat),
    ensures
        le_val(s) == v,
    decreases s.len(),
{
    reveal_with_fuel(le_val, 1);
    vstd::arithmetic::power2::lemma2_to64();
    if s.len() == 0 {
        assert(v == 0);
    } else {
        let t = s.subrange(1, s.len() as int);
        let u = v / 256;
        vstd::arithmetic::power2::lemma_pow2_adds(8, 8 * t.len());
        assert(8 * s.len() == 8 + 8 * t.len());
        vstd::arithmetic::div_mod::lemma_multiply_divide_lt(v as int, 256, pow2(8 * t.len()) as int);
        assert forall|j: int| 0 <= j < t.len() implies #[trigger] t[j] == byte_of(u, j as nat) by {
            assert(t[j] == s[j + 1]);
            assert(s[j + 1] == byte_of(v, (j + 1) as nat));
            vstd::arithmetic::power2::lemma_pow2_adds(8, 8 * (j as nat));
            assert(8 * ((j + 1) as nat) == 8 + 8 * (j as nat));
            vstd::arithmetic::power2::lemma_pow2_pos(8 * (j as nat));
            vstd::arithmetic::div_mod::lemma_div_denominator(v as int, 256, pow2(8 * (j as nat)) as int);
        }
        lemma_le_val_of_bytes(u, t);
        assert(s[0] == byte_of(v, 0));
        assert(v / pow2(0) == v);
        vstd::arithmetic::div_mod::lemma_fundamental_div_mod(v as int, 256);
    }
}

/// The canonical limbs of a value below `p` are canonical and spell it.
pub proof fn lemma_limbs_of(v: nat)
    requires
        v < modulus(),
    ensures
        canonical(limbs_of(v)),
        limbs_val(limbs_of(v)) == v,
{
    reveal(limbs_of);
    let c = limbs_of(v);
    let b: int = 0x8000000000000;
    vstd::arithmetic::div_mod::lemma_fundamental_div_mod(v as int, b);
    let q1 = v / w1();
    vstd::arithmetic::div_mod::lemma_fundamental_div_mod(q1 as int, b);
    let q2 = q1 / w1();
    vstd::arithmetic::div_mod::lemma_fundamental_div_mod(q2 as int, b);
    let q3 = q2 / w1();
    vstd::arithmetic::div_mod::lemma_fundamental_div_mod(q3 as int, b);
    let q4 = q3 / w1();
    vstd::arithmetic::div_mod::lemma_div_denominator(v as int, w1() as int, w1() as int);
    vstd::arithmetic::div_mod::lemma_div_denominator(v as int, w2() as int, w1() as int);
    vstd::arithmetic::div_mod::lemma_div_denominator(v as int, w3() as int, w1() as int);
    assert(q2 == v / w2());
    assert(q3 == v / w3());
    assert(q4 == v / w4());
    assert(q4 < 0x800000000000) by {
        vstd::arithmetic::div_mod::lemma_div_is_ordered(v as int, modulus() as int, w4() as int);
        assert(modulus() / w4() == 0x4fffffffffff);
    }
    assert(v == c[0] + w1() * (c[1] + w1() * (c[2] + w1() * (c[3] + w1() * q4))));
}

/// Write the 32 little-endian bytes of the canonical residue of `a`; `a`
/// may hold any limbs.
pub fn fp_encode(dst: &mut [u8; 32], a: &Fp)
    ensures
        forall|j: int| 0 <= j < 32 ==> #[trigger] final(dst)[j] == byte_of(fp_value(*a), j as nat),
        le_val(final(dst)@) == fp_value(*a),
{
    let ghost v = fp_value(*a);
    let mut c = redc(a);
    proof {
        vstd::arithmetic::power2::lemma2_to64();
        assert(v / pow2(0) == v);
    }
    let mut i: usize = 0;
    while i < 32
        invariant
            0 <= i <= 32,
            v == fp_value(*a),
            c[0] < 0x8000000000000u64,
            c[1] < 0x8000000000000u64,
            c[2] < 0x8000000000000u64,
            c[3] < 0x8000000000000u64,
            c[4] < 0x8000000000000u64,
            limbs_val(c) == v / pow2(8 * (i as nat)),
            forall|j: int| 0 <= j < i ==> #[trigger] dst[j] == byte_of(v, j as nat),
        decreases 32 - i,
    {
        let c0 = c[0];
        proof {
            lemma_modshr8(c);
            crate::bits::lemma_word_bits(c0, 0);
            assert(limbs_val(c) % 256 == c0 % 256) by {
                let rest: int = c[1] + c[2] * 0x8000000000000 + c[3] * 0x40000000000000000000000000
                    + c[4] * 0x200000000000000000000000000000000000000;
                assert(limbs_val(c) == c0 + 256 * (rest * 0x80000000000));
                vstd::arithmetic::div_mod::lemma_mod_multiples_vanish(rest * 0x80000000000, c0 as int, 256);
            }
        }
        dst[i] = (c0 & 0xff) as u8;
        let _ = modshr(8, &mut c);
        proof {
            vstd::arithmetic::power2::lemma_pow2_pos(8 * (i as nat));
            vstd::arithmetic::div_mod::lemma_div_denominator(v as int, pow2(8 * (i as nat)) as int, 256);
            vstd::arithmetic::power2::lemma_pow2_adds(8 * (i as nat), 8);
            assert(8 * ((i + 1) as nat) == 8 * (i as nat) + 8);
            assert(pow2(8) == 256) by {
                vstd::arithmetic::power2::lemma2_to64();
            }
        }
        i += 1;
    }
    proof {
        lemma_limbs_v_bound(v);
        lemma_le_val_of_bytes(v, dst@);
    }
}

/// `pow2(a + b)` from known `pow2(a)` and `pow2(b)`.
proof fn lemma_pow2_from(a: nat, b: nat, pa: nat, pb: nat)
    requires
        pow2(a) == pa,
        pow2(b) == pb,
    ensures
        pow2(a + b) == pa * pb,
{
    vstd::arithmetic::power2::lemma_pow2_adds(a, b);
}

/// `2^248` and `2^256`.
pub proof fn lemma_pow2_248_256()
    ensures
        pow2(248) == 0x100000000000000000000000000000000000000000000000000000000000000nat,
        pow2(256) == 0x10000000000000000000000000000000000000000000000000000000000000000nat,
{
    vstd::arithmetic::power2::lemma2_to64();
    vstd::arithmetic::power2::lemma2_to64_rest();
    lemma_pow2_from(64, 56, 0x10000000000000000nat, 0x100000000000000nat);
    lemma_pow2_from(64, 64, 0x10000000000000000nat, 0x10000000000000000nat);
    lemma_pow2_from(128, 120, 0x100000000000000000000000000000000nat, 0x1000000000000000000000000000000nat);
    lemma_pow2_from(248, 8, 0x100000000000000000000000000000000000000000000000000000000000000nat, 256);
}

/// A residue is below `2^256`.
pub proof fn lemma_limbs_v_bound(v: nat)
    requires
        v < modulus(),
    ensures
        v < pow2(256),
{
    lemma_pow2_248_256();
}

/// The limbs after one step of decoding: shift left a byte, add `b`.
pub open spec fn decode_step(d: Fp, b: u8) -> Fp {
    let c = spec_modshl(8, d);
    [(c[0] + b as u64) as u64, c[1], c[2], c[3], c[4]]
}

/// One step of decoding `s`: from the value of its tail to the value of
/// the whole.
pub proof fn lemma_decode_step(d: Fp, s: Seq<u8>)
    requires
        1 <= s.len() <= 32,
        d[0] < 0x8000000000000u64,
        d[1] < 0x8000000000000u64,
        d[2] < 0x8000000000000u64,
        d[3] < 0x8000000000000u64,
        limbs_val(d) == le_val(s.subrange(1, s.len() as int)),
    ensures
        ({
            let e = decode_step(d, s[0]);
            &&& e[0] < 0x8000000000000u64
            &&& e[1] < 0x8000000000000u64
            &&& e[2] < 0x8000000000000u64
            &&& e[3] < 0x8000000000000u64
            &&& limbs_val(e) == le_val(s)
        }),
{
    reveal_with_fuel(le_val, 1);
    let t = s.subrange(1, s.len() as int);
    lemma_le_val_bound(t);
    lemma_pow2_248_256();
    if 8 * t.len() < 248 {
        vstd::arithmetic::power2::lemma_pow2_strictly_increases(8 * t.len(), 248);
    }
    assert(d[4] < 0x100000000000000u64) by {
        assert(d[4] * w4() <= limbs_val(d));
    }
    lemma_modshl8(d);
}

/// Decoding 32 bytes gives limbs 0..=3 below `2^51` spelling their value.
pub proof fn lemma_decode_loop_done(d: Fp, src: Seq<u8>)
    requires
        src.len() == 32,
        limbs_val(d) == le_val(src.subrange(0, 32)),
    ensures
        limbs_val(d) == le_val(src),
        le_val(src) < 0x10000000000000000000000000000000000000000000000000000000000000000nat,
{
    assert(src.subrange(0, 32) =~= src);
    lemma_le_val_bound(src);
    lemma_pow2_248_256();
}

/// After the final subtraction of a decoded value below `p`: the limbs are
/// the canonical limbs of the value.
pub proof fn lemma_decode_in_range(c: Fp, v: nat)
    requires
        c[0] < 0x8000000000000u64,
        c[1] < 0x8000000000000u64,
        c[2] < 0x8000000000000u64,
        c[3] < 0x8000000000000u64,
        limbs_val(c) == v,
        v < modulus(),
    ensures
        c == limbs_of(v),
        limbs_val(c) < mont_r(),
        v % modulus() == v,
{
    assert(c[4] < 0x8000000000000u64) by {
        assert(c[4] * w4() <= limbs_val(c));
    }
    lemma_limbs_of(v);
    crate::canon::lemma_canonical_unique(c, limbs_of(v));
    vstd::arithmetic::div_mod::lemma_small_mod(v, modulus());
}

/// Read 32 little-endian bytes.  If they spell a value below `p`, `d` is
/// set to its Montgomery limbs and the all-ones mask is returned; otherwise
/// `d` is zeroed and `0` is returned.
pub fn fp_decode(d: &mut Fp, src: &[u8; 32]) -> (r: u32)
    ensures
        le_val(src@) < modulus() ==> r == 0xffffffffu32
            && *final(d) == spec_modmul(limbs_of(le_val(src@)), NRES_C)
            && fp_wf(*final(d)) && fp_value(*final(d)) == le_val(src@),
        le_val(src@) >= modulus() ==> r == 0u32 && *final(d) == [0u64; NWORDS_FIELD],
{
    let ghost v = le_val(src@);
    *d = [0u64; NWORDS_FIELD];
    proof {
        assert(src@.subrange(32, 32) =~= Seq::<u8>::empty());
        reveal_with_fuel(le_val, 1);
    }
    let mut i: usize = 32;
    while i > 0
        invariant
            0 <= i <= 32,
            d[0] < 0x8000000000000u64,
            d[1] < 0x8000000000000u64,
            d[2] < 0x8000000000000u64,
            d[3] < 0x8000000000000u64,
            limbs_val(*d) == le_val(src@.subrange(i as int, 32)),
        decreases i,
    {
        i -= 1;
        let ghost prev = *d;
        proof {
            let s = src@.subrange(i as int, 32);
            assert(s.subrange(1, s.len() as int) =~= src@.subrange(i + 1, 32));
            lemma_decode_step(prev, s);
        }
        modshl(8, d);
        d[0] = crate::reduce::add64(d[0], src[i] as u64);
        proof {
            assert(*d =~= decode_step(prev, src@[i as int]));
        }
    }
    proof {
        lemma_decode_loop_done(*d, src@);
        lemma_modfsb_value(*d);
    }
    let ghost pre = *d;
    let fsb = modfsb(d);
    let res = 0u64.wrapping_sub(fsb as u64);
    let input = *d;
    proof {
        assert(limbs_val(pre) == v);
        assert((fsb == 1) <==> v < modulus());
        assert(fsb == 0 || fsb == 1);
        assert(fsb == 1 ==> res == 0xffffffffffffffffu64);
        assert(fsb == 0 ==> res == 0u64);
        if v < modulus() {
            lemma_decode_in_range(input, v);
        }
    }
    nres(&input, d);
    let ghost before_mask = *d;
    let mut j: usize = 0;
    while j < NWORDS_FIELD
        invariant
            0 <= j <= 5,
            res == 0u64 || res == 0xffffffffffffffffu64,
            forall|k: int| 0 <= k < j ==> #[trigger] d[k] == before_mask[k] & res,
            forall|k: int| j <= k < 5 ==> #[trigger] d[k] == before_mask[k],
        decreases 5 - j,
    {
        d[j] &= res;
        j += 1;
    }
    proof {
        assert forall|x: u64| (#[trigger] (x & 0xffffffffffffffffu64)) == x by {
            crate::reduce::lemma_and_mask(x);
        }
        assert forall|x: u64| (#[trigger] (x & 0u64)) == 0 by {
            crate::reduce::lemma_and_mask(x);
        }
        crate::bits::lemma_u32_bits(0, 0);
        if v < modulus() {
            assert(*d =~= before_mask);
        } else {
            assert(d[0] == 0 && d[1] == 0 && d[2] == 0 && d[3] == 0 && d[4] == 0);
            assert(*d =~= [0u64; NWORDS_FIELD]);
        }
    }
    res as u32
}

/// The integer four little-endian 64-bit words spell.
pub open spec fn words_val(t: [u64; 4]) -> nat {
    t[0] as nat + t[1] as nat * 0x10000000000000000nat + t[2] as nat * 0x100000000000000000000000000000000nat
        + t[3] as nat * 0x1000000000000000000000000000000000000000000000000nat
}

/// `a + b + cc` split into its low word (written to `d`) and the carry.
pub(crate) fn add_carry(cc: u8, a: u64, b: u64, d: &mut u64) -> (r: u8)
    ensures
        *final(d) + r * 0x10000000000000000nat == a + b + cc,
        r <= 2,
{
    let t: u128 = (a as u128) + (b as u128) + (cc as u128);
    *d = t as u64;
    proof {
        crate::bits::lemma_u128_bits(t);
    }
    (t >> 64) as u8
}

/// The block value after folding its top byte with `5 * 2^248 == 1 (mod p)`:
/// `t - (h / 5) * p` where `h` is the top byte.
pub open spec fn reduced_block(t: nat) -> int {
    t - ((t / 0x100000000000000000000000000000000000000000000000000000000000000nat) / 5) * modulus()
}

/// Fold the top byte of a 256-bit block: `out = src - (h / 5) * p` for the
/// top byte `h` of `src`.
pub(crate) fn partial_reduce(out: &mut [u64; 4], src: &[u64; 4])
    ensures
        words_val(*final(out)) == reduced_block(words_val(*src)),
        reduced_block(words_val(*src)) < modulus() + 51,
{
    let snap = *src;
    let h: u64 = snap[3] >> 56;
    let l: u64 = snap[3] & 0x00FF_FFFF_FFFF_FFFF;
    let quo: u64 = (h.wrapping_mul(0xCD)) >> 10;
    let rem: u64 = h.wrapping_sub(5u64.wrapping_mul(quo));
    proof {
        let s3 = snap[3];
        crate::bits::lemma_top_byte(s3, 0);
        crate::bits::lemma_top_byte(h, 0);
        assert(quo == h / 5);
        crate::bits::lemma_top_byte(h, quo);
        crate::bits::lemma_top_byte(rem, 0);
    }
    let mut o0: u64 = 0;
    let mut o1: u64 = 0;
    let mut o2: u64 = 0;
    let mut o3: u64 = 0;
    let mut cc = add_carry(0, snap[0], quo, &mut o0);
    cc = add_carry(cc, snap[1], 0, &mut o1);
    cc = add_carry(cc, snap[2], 0, &mut o2);
    let _ = add_carry(cc, l, rem << 56, &mut o3);
    out[0] = o0;
    out[1] = o1;
    out[2] = o2;
    out[3] = o3;
    proof {
        let t = words_val(snap);
        let top = 0x100000000000000000000000000000000000000000000000000000000000000nat;
        let low: int = snap[0] + snap[1] * 0x10000000000000000int + snap[2] * 0x100000000000000000000000000000000int
            + l * 0x1000000000000000000000000000000000000000000000000int;
        assert(t == low + h * top);
        assert(0 <= low < top);
        vstd::arithmetic::div_mod::lemma_fundamental_div_mod_converse(t as int, top as int, h as int, low);
        assert(low + quo + rem * top < 0x10000000000000000000000000000000000000000000000000000000000000000int);
        assert(words_val(*out) == low + quo + rem * top);
        assert(quo <= 51 && rem <= 4);
        assert(low + quo + rem * top < modulus() + 51);
    }
}

/// `p` as four little-endian words is below `2^256`; `2^256 - p` is
/// `0xFB * 2^248 + 1`.
pub open spec fn two_256_minus_p() -> nat {
    0xFB00000000000000000000000000000000000000000000000000000000000001nat
}

/// Subtract `p` once when the value of `t` is at least `p`, without a
/// branch on the value: add `2^256 - p` and keep the sum when it carries
/// out.
pub(crate) fn sub_p_once(t: &mut [u64; 4])
    requires
        words_val(*old(t)) < 2 * modulus(),
    ensures
        words_val(*final(t)) == (if words_val(*old(t)) >= modulus() {
            words_val(*old(t)) - modulus()
        } else {
            words_val(*old(t)) as int
        }),
{
    let s = *t;
    let mut u0: u64 = 0;
    let mut u1: u64 = 0;
    let mut u2: u64 = 0;
    let mut u3: u64 = 0;
    let mut cc = add_carry(0, s[0], 1, &mut u0);
    cc = add_carry(cc, s[1], 0, &mut u1);
    cc = add_carry(cc, s[2], 0, &mut u2);
    cc = add_carry(cc, s[3], 0xFB00_0000_0000_0000, &mut u3);
    let ghost u: [u64; 4] = [u0, u1, u2, u3];
    proof {
        assert(words_val(u) + cc * 0x10000000000000000000000000000000000000000000000000000000000000000nat
            == words_val(s) + two_256_minus_p());
        assert(cc <= 1);
    }
    let mask: u64 = 0u64.wrapping_sub(cc as u64);
    proof {
        crate::bits::lemma_wrapping(0u64, cc as u64, 0i64, 0i64);
        assert(cc == 0 ==> mask == 0u64);
        assert(cc == 1 ==> mask == 0xffffffffffffffffu64);
        assert forall|x: u64, y: u64| #[trigger] (x ^ (0u64 & (x ^ y))) == x by {
            assert((x ^ (0u64 & (x ^ y))) == x) by (bit_vector);
        }
        assert forall|x: u64, y: u64| #[trigger] (x ^ (0xffffffffffffffffu64 & (x ^ y))) == y by {
            assert((x ^ (0xffffffffffffffffu64 & (x ^ y))) == y) by (bit_vector);
        }
    }
    t[0] = s[0] ^ (mask & (s[0] ^ u0));
    t[1] = s[1] ^ (mask & (s[1] ^ u1));
    t[2] = s[2] ^ (mask & (s[2] ^ u2));
    t[3] = s[3] ^ (mask & (s[3] ^ u3));
    proof {
        if cc == 1 {
            assert(t[0] == u0 && t[1] == u1 && t[2] == u2 && t[3] == u3);
            assert(*t =~= u);
        } else {
            assert(*t =~= s);
        }
    }
}

/// One byte of a word: `(x >> k) & 0xff` is `(x / 2^k) % 256`.
pub proof fn lemma_word_byte(x: u64, k: u64)
    requires
        k < 64,
    ensures
        ((x >> k) & 0xffu64) as nat == (x as nat / pow2(k as nat)) % 256,
{
    vstd::bits::lemma_u64_shr_is_div(x, k);
    let y = x >> k;
    crate::bits::lemma_word_bits(y, 0);
}

/// The bytes of a word, by shifting and by division.
pub proof fn lemma_word_bytes(x: u64)
    ensures
        byte_of(x as nat, 0) == ((x >> 0u64) & 0xffu64) as u8,
        byte_of(x as nat, 1) == ((x >> 8u64) & 0xffu64) as u8,
        byte_of(x as nat, 2) == ((x >> 16u64) & 0xffu64) as u8,
        byte_of(x as nat, 3) == ((x >> 24u64) & 0xffu64) as u8,
        byte_of(x as nat, 4) == ((x >> 32u64) & 0xffu64) as u8,
        byte_of(x as nat, 5) == ((x >> 40u64) & 0xffu64) as u8,
        byte_of(x as nat, 6) == ((x >> 48u64) & 0xffu64) as u8,
        byte_of(x as nat, 7) == ((x >> 56u64) & 0xffu64) as u8,
        (x as nat) < pow2(64),
{
    vstd::arithmetic::power2::lemma2_to64();
    lemma_word_byte(x, 0u64);
    lemma_word_byte(x, 8u64);
    lemma_word_byte(x, 16u64);
    lemma_word_byte(x, 24u64);
    lemma_word_byte(x, 32u64);
    lemma_word_byte(x, 40u64);
    lemma_word_byte(x, 48u64);
    lemma_word_byte(x, 56u64);
}

/// Read 8 little-endian bytes from `src` at `off`.
pub(crate) fn dec64le(src: &[u8], off: usize) -> (r: u64)
    requires
        off + 8 <= src@.len(),
    ensures
        r as nat == le_val(src@.subrange(off as int, off + 8)),
{
    let b0 = src[off] as u64;
    let b1 = src[off + 1] as u64;
    let b2 = src[off + 2] as u64;
    let b3 = src[off + 3] as u64;
    let b4 = src[off + 4] as u64;
    let b5 = src[off + 5] as u64;
    let b6 = src[off + 6] as u64;
    let b7 = src[off + 7] as u64;
    let r = b0 | (b1 << 8) | (b2 << 16) | (b3 << 24) | (b4 << 32) | (b5 << 40) | (b6 << 48) | (b7 << 56);
    proof {
        assert(b0 < 256 && b1 < 256 && b2 < 256 && b3 < 256 && b4 < 256 && b5 < 256 && b6 < 256 && b7 < 256 ==>
            ((r >> 0u64) & 0xffu64) == b0 && ((r >> 8u64) & 0xffu64) == b1 && ((r >> 16u64) & 0xffu64) == b2
            && ((r >> 24u64) & 0xffu64) == b3 && ((r >> 32u64) & 0xffu64) == b4 && ((r >> 40u64) & 0xffu64) == b5
            && ((r >> 48u64) & 0xffu64) == b6 && ((r >> 56u64) & 0xffu64) == b7) by (bit_vector)
            requires r == b0 | (b1 << 8u64) | (b2 << 16u64) | (b3 << 24u64) | (b4 << 32u64) | (b5 << 40u64)
                | (b6 << 48u64) | (b7 << 56u64);
        lemma_word_bytes(r);
        let sub = src@.subrange(off as int, off + 8);
        assert forall|j: int| 0 <= j < sub.len() implies #[trigger] sub[j] == byte_of(r as nat, j as nat) by {
            if j == 0 {} else if j == 1 {} else if j == 2 {} else if j == 3 {}
            else if j == 4 {} else if j == 5 {} else if j == 6 {} else {}
        }
        lemma_le_val_of_bytes(r as nat, sub);
    }
    r
}

/// Write the 8 little-endian bytes of `x` into `dst` at `off`.
pub(crate) fn enc64le(dst: &mut [u8; 32], off: usize, x: u64)
    requires
        off + 8 <= 32,
    ensures
        le_val(final(dst)@.subrange(off as int, off + 8)) == x,
        forall|j: int| 0 <= j < 32 && !(off <= j < off + 8) ==> #[trigger] final(dst)[j] == old(dst)[j],
{
    dst[off] = x as u8;
    dst[off + 1] = (x >> 8) as u8;
    dst[off + 2] = (x >> 16) as u8;
    dst[off + 3] = (x >> 24) as u8;
    dst[off + 4] = (x >> 32) as u8;
    dst[off + 5] = (x >> 40) as u8;
    dst[off + 6] = (x >> 48) as u8;
    dst[off + 7] = (x >> 56) as u8;
    proof {
        lemma_word_bytes(x);
        assert forall|y: u64| #[trigger] (y as u8) == (y & 0xffu64) as u8 by {
            crate::bits::lemma_word_bits(y, 0);
        }
        crate::bits::lemma_word_bits(x, 0);
        let sub = dst@.subrange(off as int, off + 8);
        assert forall|j: int| 0 <= j < sub.len() implies #[trigger] sub[j] == byte_of(x as nat, j as nat) by {
            if j == 0 {} else if j == 1 {} else if j == 2 {} else if j == 3 {}
            else if j == 4 {} else if j == 5 {} else if j == 6 {} else {}
        }
        lemma_le_val_of_bytes(x as nat, sub);
    }
}

/// Concatenation: the bytes of `b` weigh `2^(8 |a|)`.
pub proof fn lemma_le_val_append(a: Seq<u8>, b: Seq<u8>)
    ensures
        le_val(a + b) == le_val(a) + pow2(8 * a.len()) * le_val(b),
    decreases a.len(),
{
    reveal_with_fuel(le_val, 1);
    if a.len() == 0 {
        assert(a + b =~= b);
        vstd::arithmetic::power2::lemma2_to64();
        assert(le_val(a) == 0);
        assert(pow2(8 * a.len()) == 1);
    } else {
        let a1 = a.subrange(1, a.len() as int);
        assert((a + b).subrange(1, (a + b).len() as int) =~= a1 + b);
        lemma_le_val_append(a1, b);
        vstd::arithmetic::power2::lemma_pow2_adds(8, 8 * a1.len());
        vstd::arithmetic::power2::lemma2_to64();
        assert(8 * a.len() == 8 + 8 * a1.len());
        let w = pow2(8 * a1.len());
        assert(256 * (le_val(a1) + w * le_val(b)) == 256 * le_val(a1) + (256 * w) * le_val(b)) by (nonlinear_arith);
        assert((a + b)[0] == a[0]);
        assert(le_val(a + b) == (a + b)[0] + 256 * le_val((a + b).subrange(1, (a + b).len() as int)));
        assert(le_val(a) == a[0] + 256 * le_val(a1));
        assert(pow2(8 * a.len()) == 256 * w);
        let lb = le_val(b);
        let pw = pow2(8 * a.len());
        assert((256 * w) * lb == pw * lb) by (nonlinear_arith)
            requires pw == 256 * w;
    }
}

/// Zero bytes spell zero.
pub proof fn lemma_le_val_zeros(z: Seq<u8>)
    requires
        forall|j: int| 0 <= j < z.len() ==> #[trigger] z[j] == 0,
    ensures
        le_val(z) == 0,
    decreases z.len(),
{
    reveal_with_fuel(le_val, 1);
    if z.len() > 0 {
        lemma_le_val_zeros(z.subrange(1, z.len() as int));
    }
}

/// Four 8-byte pieces spell the four words.
pub proof fn lemma_le_val_words(s: Seq<u8>, t: [u64; 4])
    requires
        s.len() == 32,
        le_val(s.subrange(0, 8)) == t[0],
        le_val(s.subrange(8, 16)) == t[1],
        le_val(s.subrange(16, 24)) == t[2],
        le_val(s.subrange(24, 32)) == t[3],
    ensures
        le_val(s) == words_val(t),
{
    let s0 = s.subrange(0, 8);
    let s1 = s.subrange(8, 16);
    let s2 = s.subrange(16, 24);
    let s3 = s.subrange(24, 32);
    assert(s =~= s0 + (s1 + (s2 + s3)));
    lemma_le_val_append(s2, s3);
    lemma_le_val_append(s1, s2 + s3);
    lemma_le_val_append(s0, s1 + (s2 + s3));
    vstd::arithmetic::power2::lemma2_to64();
    assert(le_val(s) == t[0] + 0x10000000000000000nat * (t[1] + 0x10000000000000000nat * (t[2]
        + 0x10000000000000000nat * t[3])));
}

/// The number of whole 32-byte blocks in `s`.
pub open spec fn nblocks(s: Seq<u8>) -> nat {
    s.len() / 32
}

/// The integer spelled by the bytes above the last whole block.
pub open spec fn top_part(s: Seq<u8>) -> nat {
    le_val(s.subrange((32 * nblocks(s)) as int, s.len() as int))
}

/// The integer spelled by block `j`.
pub open spec fn block(s: Seq<u8>, j: nat) -> nat {
    le_val(s.subrange((32 * j) as int, (32 * j + 32) as int))
}

/// What a block adds after its top byte is folded: the folded value
/// reduced below `p`.
pub open spec fn block_value(t: nat) -> nat {
    (reduced_block(t) % (modulus() as int)) as nat
}

/// The field value accumulated from the top of `s` down to block `j`:
/// Horner's rule in base `2^256` over the folded blocks.
pub open spec fn reduce_from(s: Seq<u8>, j: nat) -> nat
    decreases nblocks(s) - j,
{
    if j >= nblocks(s) {
        top_part(s) % modulus()
    } else {
        (reduce_from(s, j + 1) * crate::constants::two_256() + block_value(block(s, j))) % modulus()
    }
}

/// One step of Horner's rule modulo `p`, with the multiplier already
/// reduced: `((x * (c mod p)) mod p + b) mod p == (x * c + b) mod p`.
pub proof fn lemma_horner_step(x: nat, c: nat, b: nat)
    ensures
        (((x * (c % modulus())) % modulus()) + b) % modulus() == (x * c + b) % modulus(),
{
    let m = modulus() as int;
    vstd::arithmetic::div_mod::lemma_mul_mod_noop_right(x as int, c as int, m);
    vstd::arithmetic::div_mod::lemma_add_mod_noop((x * c) as int, b as int, m);
    vstd::arithmetic::div_mod::lemma_mod_twice((x * c) as int, m);
    vstd::arithmetic::div_mod::lemma_add_mod_noop(((x * c) as int) % m, b as int, m);
    vstd::arithmetic::div_mod::lemma_small_mod(b % modulus(), modulus());
}

/// The top part of a byte string: its bytes above the last whole block,
/// zero-padded to 32 bytes, spell an integer below `p`.
pub proof fn lemma_top_part(s: Seq<u8>, tmp: Seq<u8>, k: nat)
    requires
        k == 32 * nblocks(s),
        tmp.len() == 32,
        s.len() - k < 32,
        forall|j: int| 0 <= j < s.len() - k ==> #[trigger] tmp[j] == s[k + j],
        forall|j: int| s.len() - k <= j < 32 ==> #[trigger] tmp[j] == 0,
    ensures
        le_val(tmp) == top_part(s),
        top_part(s) < modulus(),
{
    let n = (s.len() - k) as int;
    let head = tmp.subrange(0, n);
    let zeros = tmp.subrange(n, 32);
    assert(tmp =~= head + zeros);
    assert(head =~= s.subrange(k as int, s.len() as int));
    lemma_le_val_zeros(zeros);
    lemma_le_val_append(head, zeros);
    lemma_le_val_bound(head);
    lemma_pow2_248_256();
    if 8 * head.len() < 248 {
        vstd::arithmetic::power2::lemma_pow2_strictly_increases(8 * head.len(), 248);
    }
}

/// The words read from block `j` spell the block.
pub proof fn lemma_block_words(s: Seq<u8>, j: int, t: [u64; 4])
    requires
        0 <= j,
        32 * j + 32 <= s.len(),
        le_val(s.subrange(32 * j, 32 * j + 8)) == t[0],
        le_val(s.subrange(32 * j + 8, 32 * j + 16)) == t[1],
        le_val(s.subrange(32 * j + 16, 32 * j + 24)) == t[2],
        le_val(s.subrange(32 * j + 24, 32 * j + 32)) == t[3],
    ensures
        block(s, j as nat) == words_val(t),
{
    let b = s.subrange((32 * j) as int, (32 * j + 32) as int);
    assert(b.subrange(0, 8) =~= s.subrange(32 * j, 32 * j + 8));
    assert(b.subrange(8, 16) =~= s.subrange(32 * j + 8, 32 * j + 16));
    assert(b.subrange(16, 24) =~= s.subrange(32 * j + 16, 32 * j + 24));
    assert(b.subrange(24, 32) =~= s.subrange(32 * j + 24, 32 * j + 32));
    lemma_le_val_words(b, t);
}

/// The limbs `fp_decode` writes for 32 bytes spelling `v`.
pub open spec fn decoded_limbs(v: nat) -> Fp {
    if v < modulus() { spec_modmul(limbs_of(v), NRES_C) } else { [0u64; NWORDS_FIELD] }
}

/// The limbs `fp_decode_reduce` holds after the blocks from `j` up, for
/// any bytes: the bytes above the last whole block decoded, then per block
/// a Montgomery multiplication by `R2` and the addition of the decoded
/// folded block (reduced below `p`).
pub open spec fn spec_reduce_limbs(s: Seq<u8>, j: nat) -> Fp
    decreases nblocks(s) - j,
{
    if j >= nblocks(s) {
        decoded_limbs(top_part(s))
    } else {
        spec_modadd(spec_modmul(spec_reduce_limbs(s, j + 1), R2), decoded_limbs(block_value(block(s, j))))
    }
}

/// Reduce a little-endian byte string of any length modulo `p`: each
/// 32-byte block has its top byte folded (`5 * 2^248 == 1 (mod p)`), is
/// brought below `p` and decoded; the blocks are combined by Horner's rule
/// in base `2^256`.  The result stands for the value of the bytes modulo
/// `p`; no bytes give zero.
pub fn fp_decode_reduce(d: &mut Fp, src: &[u8])
    ensures
        *final(d) == spec_reduce_limbs(src@, 0),
        fp_wf(*final(d)),
        fp_value(*final(d)) == le_val(src@) % modulus(),
        src@.len() == 0 ==> *final(d) == [0u64; NWORDS_FIELD],
{
    let mut tmp: [u8; 32] = [0u8; 32];
    fp_set_zero(d);
    let mut len = src.len();
    proof {
        lemma_constants();
    }
    proof {
        reveal(limbs_of);
        assert(limbs_of(0) =~= [0u64; NWORDS_FIELD]);
        crate::mont::lemma_modmul_comm(limbs_of(0), NRES_C);
        crate::fp::lemma_modint_zero(NRES_C);
        assert(decoded_limbs(0) == [0u64; NWORDS_FIELD]);
    }
    if len == 0 {
        proof {
            reveal_with_fuel(le_val, 1);
            assert(src@.subrange(0, 0) =~= Seq::<u8>::empty());
            assert(src@ =~= Seq::<u8>::empty());
        }
        return;
    }
    let rem = len % 32;
    if rem != 0 {
        let k = len - rem;
        let mut i: usize = 0;
        while i < rem
            invariant
                0 <= i <= rem < 32,
                k + rem == src@.len(),
                k + rem == src.len(),
                forall|j: int| 0 <= j < i ==> #[trigger] tmp[j] == src@[k + j],
                forall|j: int| i <= j < 32 ==> #[trigger] tmp[j] == 0,
            decreases rem - i,
        {
            tmp[i] = src[k + i];
            i += 1;
        }
        let mut z: usize = rem;
        while z < 32
            invariant
                rem <= z <= 32,
                rem < 32,
                k + rem == src@.len(),
                forall|j: int| 0 <= j < rem ==> #[trigger] tmp[j] == src@[k + j],
                forall|j: int| rem <= j < 32 ==> #[trigger] tmp[j] == 0,
            decreases 32 - z,
        {
            tmp[z] = 0;
            z += 1;
        }
        proof {
            lemma_top_part(src@, tmp@, k as nat);
        }
        let _ = fp_decode(d, &tmp);
        proof {
            vstd::arithmetic::div_mod::lemma_small_mod(top_part(src@), modulus());
        }
        len = k;
    } else {
        proof {
            reveal_with_fuel(le_val, 1);
            assert(src@.subrange(len as int, len as int) =~= Seq::<u8>::empty());
        }
    }
    while len > 0
        invariant
            len % 32 == 0,
            len <= src@.len(),
            len / 32 <= nblocks(src@),
            fp_wf(*d),
            fp_value(*d) == reduce_from(src@, (len / 32) as nat),
            *d == spec_reduce_limbs(src@, (len / 32) as nat),
            fp_wf(R2),
            fp_value(R2) == two_256() % modulus(),
        decreases len,
    {
        let mut prod: Fp = [0u64; NWORDS_FIELD];
        fp_mul(&mut prod, d, &R2);
        *d = prod;
        len -= 32;
        let ghost j: nat = (len / 32) as nat;
        let mut t: [u64; 4] = [0u64; 4];
        t[0] = dec64le(src, len);
        t[1] = dec64le(src, len + 8);
        t[2] = dec64le(src, len + 16);
        t[3] = dec64le(src, len + 24);
        proof {
            assert(32 * j == len);
            lemma_block_words(src@, j as int, t);
        }
        let snap = t;
        partial_reduce(&mut t, &snap);
        proof {
            assert(modulus() + 51 < 2 * modulus());
        }
        sub_p_once(&mut t);
        proof {
            let r = reduced_block(block(src@, j));
            assert(0 <= r);
            if r >= modulus() {
                vstd::arithmetic::div_mod::lemma_fundamental_div_mod_converse(r, modulus() as int, 1, r - modulus());
            } else {
                vstd::arithmetic::div_mod::lemma_small_mod(r as nat, modulus());
            }
            assert(words_val(t) == block_value(block(src@, j)));
        }
        enc64le(&mut tmp, 0, t[0]);
        let ghost tmp0 = tmp;
        enc64le(&mut tmp, 8, t[1]);
        let ghost tmp1 = tmp;
        enc64le(&mut tmp, 16, t[2]);
        let ghost tmp2 = tmp;
        enc64le(&mut tmp, 24, t[3]);
        proof {
            assert(tmp@.subrange(0, 8) =~= tmp0@.subrange(0, 8));
            assert(tmp@.subrange(8, 16) =~= tmp1@.subrange(8, 16));
            assert(tmp@.subrange(16, 24) =~= tmp2@.subrange(16, 24));
            lemma_le_val_words(tmp@, t);
        }
        let mut a: Fp = [0u64; NWORDS_FIELD];
        let _ = fp_decode(&mut a, &tmp);
        proof {
            if le_val(tmp@) < modulus() {
                assert(fp_value(a) == block_value(block(src@, j)));
            } else {
                assert(a =~= [0u64; NWORDS_FIELD]);
                assert(limbs_val(a) == 0);
                assert(fp_wf(a));
                assert(fp_value(a) == 0);
            }
        }
        let mut sum: Fp = [0u64; NWORDS_FIELD];
        fp_add(&mut sum, d, &a);
        *d = sum;
        proof {
            lemma_horner_step(reduce_from(src@, j + 1), two_256(), block_value(block(src@, j)));
            assert((len + 32) / 32 == j + 1);
        }
    }
    proof {
        lemma_reduce_from(src@, 0);
        assert(src@.subrange(0, src@.len() as int) =~= src@);
    }
}

/// The bytes of the value that bytes spell are those bytes.
pub proof fn lemma_byte_of_le_val(s: Seq<u8>, j: nat)
    requires
        j < s.len(),
    ensures
        byte_of(le_val(s), j) == s[j as int],
    decreases j,
{
    reveal_with_fuel(le_val, 1);
    vstd::arithmetic::power2::lemma2_to64();
    let t = s.subrange(1, s.len() as int);
    let v = le_val(s);
    vstd::arithmetic::div_mod::lemma_fundamental_div_mod_converse(v as int, 256, le_val(t) as int, s[0] as int);
    if j == 0 {
        assert(v / pow2(0) == v);
    } else {
        lemma_byte_of_le_val(t, (j - 1) as nat);
        vstd::arithmetic::power2::lemma_pow2_adds(8, 8 * ((j - 1) as nat));
        assert(8 * j == 8 + 8 * ((j - 1) as nat));
        vstd::arithmetic::power2::lemma_pow2_pos(8 * ((j - 1) as nat));
        vstd::arithmetic::div_mod::lemma_div_denominator(v as int, 256, pow2(8 * ((j - 1) as nat)) as int);
        assert(t[(j - 1) as int] == s[j as int]);
    }
}

/// Horner's rule over the folded blocks gives the value of the bytes from
/// block `j` up, modulo `p`.
pub proof fn lemma_reduce_from(s: Seq<u8>, j: nat)
    requires
        j <= nblocks(s),
    ensures
        reduce_from(s, j) == le_val(s.subrange((32 * j) as int, s.len() as int)) % modulus(),
    decreases nblocks(s) - j,
{
    if j < nblocks(s) {
        lemma_reduce_from(s, j + 1);
        let rest = s.subrange((32 * (j + 1)) as int, s.len() as int);
        let blk = s.subrange((32 * j) as int, (32 * j + 32) as int);
        assert(s.subrange((32 * j) as int, s.len() as int) =~= blk + rest);
        lemma_le_val_append(blk, rest);
        lemma_pow2_248_256();
        let t = block(s, j);
        let ti = t as int;
        let x = reduce_from(s, j + 1) as int;
        let y = le_val(rest) as int;
        let w = two_256() as int;
        let m = modulus() as int;
        let q = ((t / 0x100000000000000000000000000000000000000000000000000000000000000nat) / 5) as int;
        let bv = block_value(t) as int;
        assert(bv == (ti - q * m) % m);
        assert(two_256() == pow2(256));
        assert(x == y % m);
        vstd::arithmetic::div_mod::lemma_mul_mod_noop_left(y, w, m);
        vstd::arithmetic::div_mod::lemma_add_mod_noop(x * w, bv, m);
        vstd::arithmetic::div_mod::lemma_add_mod_noop(y * w, ti, m);
        vstd::arithmetic::div_mod::lemma_mod_multiples_vanish(-q, ti, m);
        assert(m * (-q) + ti == ti - q * m) by (nonlinear_arith);
        vstd::arithmetic::div_mod::lemma_mod_twice(ti - q * m, m);
        assert(bv % m == ti % m);
        assert(y * w + ti == ti + w * y) by (nonlinear_arith);
    } else {
        assert(32 * j == 32 * nblocks(s));
    }
}

} // verus!
