//! Precomputed field constants, each with a proof of what it stands for.
use vstd::prelude::*;
use crate::Fp;
use crate::field_spec::{canonical, fp_value, fp_wf, limbs_val, modulus, mont_r};

verus! {

/// The Montgomery limbs of `1`: `R mod p`.
pub const MONTGOMERY_ONE: Fp = [0x19, 0, 0, 0, 0x300000000000];

/// The Montgomery limbs of `2^-1 mod p`.
pub const TWO_INV: Fp = [0xc, 0, 0, 0, 0x400000000000];

/// The Montgomery limbs of `3^-1 mod p`.
pub const THREE_INV: Fp = [0x555555555555d, 0x2aaaaaaaaaaaa, 0x5555555555555, 0x2aaaaaaaaaaaa, 0x455555555555];

/// `R^2 mod p`, the factor that takes a positional residue into the
/// Montgomery domain.
pub const NRES_C: Fp = [0x4cccccccccf5c, 0x1999999999999, 0x3333333333333, 0x6666666666666, 0xccccccccccc];

/// The Montgomery limbs of `2^256 mod p`, the weight of one 32-byte block.
pub const R2: Fp = [0x1999999999eb8, 0x3333333333333, 0x6666666666666, 0x4cccccccccccc, 0x199999999999];

/// `2^256`.
pub open spec fn two_256() -> nat {
    0x10000000000000000000000000000000000000000000000000000000000000000nat
}

/// What each constant stands for.
pub proof fn lemma_constants()
    ensures
        canonical(MONTGOMERY_ONE),
        fp_value(MONTGOMERY_ONE) == 1,
        canonical(TWO_INV),
        (2 * fp_value(TWO_INV)) % modulus() == 1,
        canonical(THREE_INV),
        (3 * fp_value(THREE_INV)) % modulus() == 1,
        canonical(NRES_C),
        limbs_val(NRES_C) == (mont_r() * mont_r()) % modulus(),
        canonical(R2),
        fp_value(R2) == two_256() % modulus(),
        fp_wf(MONTGOMERY_ONE) && fp_wf(TWO_INV) && fp_wf(THREE_INV) && fp_wf(NRES_C) && fp_wf(R2),
{
    assert(limbs_val(MONTGOMERY_ONE) == 0x19 + 0x300000000000 * crate::field_spec::w4());
    assert(fp_value(MONTGOMERY_ONE) == 1);
    assert(fp_value(TWO_INV) == 1130782121458165970933310400475467850129589694000396133197827968827276656640nat);
    assert(fp_value(THREE_INV) == 1507709495277554627911080533967290466839452925333861510930437291769702208853nat);
    assert(fp_value(R2) == 452312848583266388373324160190187140051835877600158453279131187530910662707nat);
}

} // verus!
