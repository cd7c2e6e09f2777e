//! Arithmetic in GF(p) and GF(p^2) for the level-1 SQIsign prime
//! `p = 5 * 2^248 - 1`, with every operation proved against a mathematical
//! model of the field.
//!
//! A field element is held as five `u64` limbs in unsaturated radix-2^51
//! form, in the Montgomery domain with `R = 2^255`.  The representation is
//! redundant: the limbs of an element are not unique.  See
//! [`field_spec`] for the model: `limbs_val` reads the limbs as an integer,
//! `fp_value` gives the field element they stand for, and `fp_wf` is the
//! bound that the arithmetic keeps.
//!
//! That `p` is prime is proved ([`certificate`]), and with it the field
//! laws the operations are for: inverses, and square tests and square
//! roots that hold exactly on squares ([`fermat`]).
//!
//! [`abi`] holds the wire sizes of level-1 keys and signatures and the
//! argument checks of the C entry points.
use vstd::prelude::*;

pub mod abi;
pub mod arith;
pub mod bits;
pub mod canon;
pub mod certificate;
pub mod codec;
pub mod constants;
pub mod exp;
pub mod ext_spec;
pub mod fermat;
pub mod field_spec;
pub mod fp;
pub mod fp2;
pub mod laws;
pub mod mont;
pub mod prime;
pub mod reduce;
pub mod select;

pub use codec::{fp_decode, fp_decode_reduce, fp_encode};
pub use constants::MONTGOMERY_ONE;
pub use exp::{fp_exp3div4, fp_inv, fp_is_square, fp_sqrt};
pub use fp::{
    fp_add, fp_copy, fp_div3, fp_half, fp_is_equal, fp_is_zero, fp_mul, fp_mul_small, fp_neg, fp_set_one,
    fp_set_small, fp_set_zero, fp_sqr, fp_sub, nres,
};
pub use fp2::{
    fp2_add, fp2_add_one, fp2_batched_inv, fp2_copy, fp2_cswap, fp2_decode, fp2_encode, fp2_half, fp2_inv,
    fp2_is_equal, fp2_is_one, fp2_is_square, fp2_is_zero, fp2_mul, fp2_mul_small, fp2_neg, fp2_pow_vartime,
    fp2_select, fp2_set_one, fp2_set_small, fp2_set_zero, fp2_sqr, fp2_sqrt, fp2_sqrt_verify, fp2_sub, Fp2,
    Fp2t, FP2_ENCODED_BYTES,
};
pub use select::{fp_cswap, fp_select};
pub use abi::{
    entry_status, keygen_args_ok, keygen_with_rng_args_ok, sign_args_ok, sign_with_rng_args_ok, verify_args_ok,
    SQISIGN_LVL1_ENTROPY_BYTES, SQISIGN_LVL1_PUBLIC_KEY_BYTES, SQISIGN_LVL1_SECRET_KEY_BYTES,
    SQISIGN_LVL1_SIGNATURE_BYTES,
};

verus! {

/// Number of `u64` limbs in a GF(p) element.
pub const NWORDS_FIELD: usize = 5;

/// A GF(p) element: five `u64` limbs in unsaturated radix-2^51 form.
pub type Fp = [u64; NWORDS_FIELD];

} // verus!
