//! Constant-time selection and swapping of GF(p) elements.
use vstd::prelude::*;
use crate::{Fp, NWORDS_FIELD};
use crate::reduce::{add64, sub64};

verus! {

/// The multiplier `modcsw` blinds both operands with.
pub const MODCSW_R: u64 = 0x3cc3c33c5aa5a55a;

/// Wrapping 64-bit multiplication.
pub(crate) fn mul64(x: u64, y: u64) -> (r: u64)
    ensures
        r == (x * y) as u64,
{
    proof {
        crate::bits::lemma_wrapping(x, y, 0, 0);
    }
    x.wrapping_mul(y)
}

/// The mask that `ctl` stands for: `ctl` read as a signed 32-bit word and
/// sign-extended to 64 bits.
pub open spec fn ctl_mask(ctl: u32) -> u64 {
    ((ctl as i32) as i64) as u64
}

/// The limbs that `fp_select` writes: each limb of `a0` with the bits of
/// `a0 ^ a1` under the mask flipped.
pub open spec fn spec_select(a0: Fp, a1: Fp, ctl: u32) -> Fp {
    let cw = ctl_mask(ctl);
    [a0[0] ^ (cw & (a0[0] ^ a1[0])), a0[1] ^ (cw & (a0[1] ^ a1[1])), a0[2] ^ (cw & (a0[2] ^ a1[2])),
        a0[3] ^ (cw & (a0[3] ^ a1[3])), a0[4] ^ (cw & (a0[4] ^ a1[4]))]
}

/// The two limbs that `modcsw` writes for one position, from the limbs `s`
/// (of `g`) and `t` (of `f`): `(new f, new g)`.
pub open spec fn spec_csw(b: u64, s: u64, t: u64) -> (u64, u64) {
    let r = MODCSW_R;
    let c0 = ((1 - b) as u64 + r) as u64;
    let c1 = (b + r) as u64;
    let w = (r * ((t + s) as u64)) as u64;
    ((((c0 * t) as u64 + (c1 * s) as u64) as u64 - w) as u64,
     (((c0 * s) as u64 + (c1 * t) as u64) as u64 - w) as u64)
}

/// With `b == 0` the blinded update keeps both limbs; with `b == 1` it
/// exchanges them.
pub proof fn lemma_csw(b: u64, s: u64, t: u64)
    requires
        b == 0 || b == 1,
    ensures
        b == 0 ==> spec_csw(b, s, t) == (t, s),
        b == 1 ==> spec_csw(b, s, t) == (s, t),
{
    assert((((((1u64 - 0u64) as u64 + 0x3cc3c33c5aa5a55au64) as u64 * t) as u64
            + ((0u64 + 0x3cc3c33c5aa5a55au64) as u64 * s) as u64) as u64
            - (0x3cc3c33c5aa5a55au64 * ((t + s) as u64)) as u64) as u64 == t
        && (((((1u64 - 0u64) as u64 + 0x3cc3c33c5aa5a55au64) as u64 * s) as u64
            + ((0u64 + 0x3cc3c33c5aa5a55au64) as u64 * t) as u64) as u64
            - (0x3cc3c33c5aa5a55au64 * ((t + s) as u64)) as u64) as u64 == s
        && (((((1u64 - 1u64) as u64 + 0x3cc3c33c5aa5a55au64) as u64 * t) as u64
            + ((1u64 + 0x3cc3c33c5aa5a55au64) as u64 * s) as u64) as u64
            - (0x3cc3c33c5aa5a55au64 * ((t + s) as u64)) as u64) as u64 == s
        && (((((1u64 - 1u64) as u64 + 0x3cc3c33c5aa5a55au64) as u64 * s) as u64
            + ((1u64 + 0x3cc3c33c5aa5a55au64) as u64 * t) as u64) as u64
            - (0x3cc3c33c5aa5a55au64 * ((t + s) as u64)) as u64) as u64 == t) by (bit_vector);
}

/// Blinded conditional swap of `g` and `f` on `b`: every limb is rewritten
/// through the same multiplications whichever way `b` goes.
pub(crate) fn modcsw(b: u64, g: &mut Fp, f: &mut Fp)
    ensures
        forall|i: int| 0 <= i < 5 ==> (#[trigger] final(f)[i], final(g)[i]) == spec_csw(b, old(g)[i], old(f)[i]),
{
    let r = MODCSW_R;
    let c0 = add64(sub64(1, b), r);
    let c1 = add64(b, r);
    let mut i: usize = 0;
    while i < NWORDS_FIELD
        invariant
            0 <= i <= 5,
            c0 == ((1 - b) as u64 + r) as u64,
            c1 == (b + r) as u64,
            r == MODCSW_R,
            forall|j: int| 0 <= j < i ==> (#[trigger] f[j], g[j]) == spec_csw(b, old(g)[j], old(f)[j]),
            forall|j: int| i <= j < 5 ==> #[trigger] f[j] == old(f)[j],
            forall|j: int| i <= j < 5 ==> #[trigger] g[j] == old(g)[j],
        decreases 5 - i,
    {
        let s = g[i];
        let t = f[i];
        let w = mul64(r, add64(t, s));
        let new_f = add64(mul64(c0, t), mul64(c1, s));
        f[i] = sub64(new_f, w);
        let new_g = add64(mul64(c0, s), mul64(c1, t));
        g[i] = sub64(new_g, w);
        i += 1;
    }
}

/// The pair after a conditional swap on the low bit of `ctl`.
pub open spec fn spec_cswap(a: Fp, b: Fp, ctl: u32) -> (Fp, Fp) {
    if ctl & 1 == 1 { (b, a) } else { (a, b) }
}

/// Swap `a` and `b` when the low bit of `ctl` is set; leave them when it is
/// clear.  The other bits of `ctl` are ignored.
pub fn fp_cswap(a: &mut Fp, b: &mut Fp, ctl: u32)
    ensures
        (*final(a), *final(b)) == spec_cswap(*old(a), *old(b), ctl),
        ctl & 1 == 0 ==> *final(a) == *old(a) && *final(b) == *old(b),
        ctl & 1 == 1 ==> *final(a) == *old(b) && *final(b) == *old(a),
{
    let bit = (ctl & 1) as u64;
    proof {
        crate::bits::lemma_u32_bits(ctl, 0);
    }
    modcsw(bit, a, b);
    proof {
        assert forall|i: int| 0 <= i < 5 implies
            (bit == 0 ==> a[i] == old(a)[i] && b[i] == old(b)[i])
            && (bit == 1 ==> a[i] == old(b)[i] && b[i] == old(a)[i]) by {
            assert((b[i], a[i]) == spec_csw(bit, old(a)[i], old(b)[i]));
            lemma_csw(bit, old(a)[i], old(b)[i]);
        }
        if bit == 0 {
            assert(*a =~= *old(a));
            assert(*b =~= *old(b));
        } else {
            assert(*a =~= *old(b));
            assert(*b =~= *old(a));
        }
    }
}

/// Set `d` to `a0` when `ctl` is `0`, to `a1` when `ctl` is `0xFFFFFFFF`;
/// for any other `ctl`, to the bitwise blend of the two under the
/// sign-extended mask.
pub fn fp_select(d: &mut Fp, a0: &Fp, a1: &Fp, ctl: u32)
    ensures
        *final(d) == spec_select(*a0, *a1, ctl),
        ctl == 0 ==> *final(d) == *a0,
        ctl == 0xffffffffu32 ==> *final(d) == *a1,
{
    let cw = (ctl as i32) as u64;
    let mut i: usize = 0;
    while i < NWORDS_FIELD
        invariant
            0 <= i <= 5,
            cw == ctl_mask(ctl),
            forall|j: int| 0 <= j < i ==> #[trigger] d[j] == a0[j] ^ (cw & (a0[j] ^ a1[j])),
        decreases 5 - i,
    {
        d[i] = a0[i] ^ (cw & (a0[i] ^ a1[i]));
        i += 1;
    }
    proof {
        reveal(spec_select);
        assert(*d =~= spec_select(*a0, *a1, ctl));
        assert forall|x: u64, y: u64| #[trigger] (x ^ (0u64 & (x ^ y))) == x by {
            crate::bits::lemma_word_bits(x, y);
        }
        assert forall|x: u64, y: u64| #[trigger] (x ^ (0xffffffffffffffffu64 & (x ^ y))) == y by {
            crate::bits::lemma_word_bits(x, y);
        }
        if ctl == 0 {
            assert(ctl_mask(ctl) == 0u64);
            assert(*d =~= *a0);
        }
        if ctl == 0xffffffffu32 {
            crate::bits::lemma_u32_bits(ctl, 0);
            assert(ctl_mask(ctl) == 0xffffffffffffffffu64);
            assert(*d =~= *a1);
        }
    }
}

} // verus!
