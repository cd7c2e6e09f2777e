//! The level-1 C entry points: wire sizes of keys and signatures, the
//! argument checks each entry point makes before it does any work, and
//! the status it answers with.
//!
//! A pointer argument is seen here only as whether it is present (not
//! null), and the random-fill callback only as whether it was given.
use vstd::prelude::*;

verus! {

/// Length of a serialized level-1 public key.
pub const SQISIGN_LVL1_PUBLIC_KEY_BYTES: usize = 65;

/// Length of a serialized level-1 signature.
pub const SQISIGN_LVL1_SIGNATURE_BYTES: usize = 148;

/// Length of a serialized level-1 secret key.
pub const SQISIGN_LVL1_SECRET_KEY_BYTES: usize = 353;

/// Length of the entropy block that seeds level-1 key generation.
pub const SQISIGN_LVL1_ENTROPY_BYTES: usize = 48;

/// A message argument is usable when it is present or empty.
pub open spec fn message_usable(msg_present: bool, msg_len: usize) -> bool {
    msg_present || msg_len == 0
}

/// Verification goes on to decode only when the signature and the public
/// key have their exact lengths and are present, and the message is
/// usable.
pub fn verify_args_ok(
    sig_len: usize,
    pk_len: usize,
    sig_present: bool,
    pk_present: bool,
    msg_present: bool,
    msg_len: usize,
) -> (r: bool)
    ensures
        r == (sig_len == SQISIGN_LVL1_SIGNATURE_BYTES && pk_len == SQISIGN_LVL1_PUBLIC_KEY_BYTES
            && sig_present && pk_present && message_usable(msg_present, msg_len)),
{
    if sig_len != SQISIGN_LVL1_SIGNATURE_BYTES {
        return false;
    }
    if pk_len != SQISIGN_LVL1_PUBLIC_KEY_BYTES {
        return false;
    }
    if !sig_present || !pk_present {
        return false;
    }
    if !msg_present && msg_len != 0 {
        return false;
    }
    true
}

/// Key generation from entropy goes on only when the public key, secret
/// key and entropy buffers have their exact lengths and are present.
pub fn keygen_args_ok(
    pk_len: usize,
    sk_len: usize,
    entropy_len: usize,
    pk_present: bool,
    sk_present: bool,
    entropy_present: bool,
) -> (r: bool)
    ensures
        r == (pk_len == SQISIGN_LVL1_PUBLIC_KEY_BYTES && sk_len == SQISIGN_LVL1_SECRET_KEY_BYTES
            && entropy_len == SQISIGN_LVL1_ENTROPY_BYTES && pk_present && sk_present && entropy_present),
{
    if pk_len != SQISIGN_LVL1_PUBLIC_KEY_BYTES || sk_len != SQISIGN_LVL1_SECRET_KEY_BYTES
        || entropy_len != SQISIGN_LVL1_ENTROPY_BYTES {
        return false;
    }
    if !pk_present || !sk_present || !entropy_present {
        return false;
    }
    true
}

/// Signing from entropy goes on only when the signature, secret key and
/// entropy buffers have their exact lengths and are present, and the
/// message is usable.
pub fn sign_args_ok(
    sig_len: usize,
    sk_len: usize,
    entropy_len: usize,
    sig_present: bool,
    sk_present: bool,
    entropy_present: bool,
    msg_present: bool,
    msg_len: usize,
) -> (r: bool)
    ensures
        r == (sig_len == SQISIGN_LVL1_SIGNATURE_BYTES && sk_len == SQISIGN_LVL1_SECRET_KEY_BYTES
            && entropy_len == SQISIGN_LVL1_ENTROPY_BYTES && sig_present && sk_present && entropy_present
            && message_usable(msg_present, msg_len)),
{
    if sig_len != SQISIGN_LVL1_SIGNATURE_BYTES || sk_len != SQISIGN_LVL1_SECRET_KEY_BYTES
        || entropy_len != SQISIGN_LVL1_ENTROPY_BYTES {
        return false;
    }
    if !sig_present || !sk_present || !entropy_present {
        return false;
    }
    if !msg_present && msg_len != 0 {
        return false;
    }
    true
}

/// Key generation from a random-fill callback goes on only when the public
/// and secret key buffers have their exact lengths and are present, and a
/// callback was given.
pub fn keygen_with_rng_args_ok(
    pk_len: usize,
    sk_len: usize,
    pk_present: bool,
    sk_present: bool,
    callback_present: bool,
) -> (r: bool)
    ensures
        r == (pk_len == SQISIGN_LVL1_PUBLIC_KEY_BYTES && sk_len == SQISIGN_LVL1_SECRET_KEY_BYTES
            && pk_present && sk_present && callback_present),
{
    if pk_len != SQISIGN_LVL1_PUBLIC_KEY_BYTES || sk_len != SQISIGN_LVL1_SECRET_KEY_BYTES {
        return false;
    }
    if !pk_present || !sk_present {
        return false;
    }
    callback_present
}

/// Signing from a random-fill callback goes on only when the signature and
/// secret key buffers have their exact lengths and are present, the
/// message is usable, and a callback was given.
pub fn sign_with_rng_args_ok(
    sig_len: usize,
    sk_len: usize,
    sig_present: bool,
    sk_present: bool,
    msg_present: bool,
    msg_len: usize,
    callback_present: bool,
) -> (r: bool)
    ensures
        r == (sig_len == SQISIGN_LVL1_SIGNATURE_BYTES && sk_len == SQISIGN_LVL1_SECRET_KEY_BYTES
            && sig_present && sk_present && message_usable(msg_present, msg_len) && callback_present),
{
    if sig_len != SQISIGN_LVL1_SIGNATURE_BYTES || sk_len != SQISIGN_LVL1_SECRET_KEY_BYTES {
        return false;
    }
    if !sig_present || !sk_present {
        return false;
    }
    if !msg_present && msg_len != 0 {
        return false;
    }
    callback_present
}

/// The status an entry point answers with: `1` when the work ran to its
/// end and succeeded, `0` when it failed or was cut short (`None`).
pub fn entry_status(outcome: Option<bool>) -> (r: i32)
    ensures
        r == (if outcome == Some(true) { 1i32 } else { 0i32 }),
{
    match outcome {
        Some(true) => 1,
        _ => 0,
    }
}

} // verus!
