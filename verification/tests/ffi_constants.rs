use sqisign_gf::{
    entry_status, keygen_args_ok, keygen_with_rng_args_ok, sign_args_ok, sign_with_rng_args_ok, verify_args_ok,
    SQISIGN_LVL1_ENTROPY_BYTES, SQISIGN_LVL1_PUBLIC_KEY_BYTES, SQISIGN_LVL1_SECRET_KEY_BYTES,
    SQISIGN_LVL1_SIGNATURE_BYTES,
};

#[test]
fn constants_track_verify_crate() {
    assert_eq!(SQISIGN_LVL1_PUBLIC_KEY_BYTES, 65);
    assert_eq!(SQISIGN_LVL1_SIGNATURE_BYTES, 148);
}

#[test]
fn secret_key_and_entropy_sizes() {
    assert_eq!(SQISIGN_LVL1_SECRET_KEY_BYTES, 353);
    assert_eq!(SQISIGN_LVL1_ENTROPY_BYTES, 48);
}

#[test]
fn verify_args_reject_wrong_lengths_and_missing_buffers() {
    let (s, p) = (SQISIGN_LVL1_SIGNATURE_BYTES, SQISIGN_LVL1_PUBLIC_KEY_BYTES);
    assert!(verify_args_ok(s, p, true, true, true, 1));
    // a signature one byte short
    assert!(!verify_args_ok(s - 1, p, true, true, true, 1));
    assert!(!verify_args_ok(s, p + 1, true, true, true, 1));
    // absent signature, absent key
    assert!(!verify_args_ok(s, p, false, true, false, 0));
    assert!(!verify_args_ok(s, p, true, false, false, 0));
    // an absent message is usable only when empty
    assert!(verify_args_ok(s, p, true, true, false, 0));
    assert!(!verify_args_ok(s, p, true, true, false, 3));
}

#[test]
fn keygen_and_sign_args() {
    let (p, k, e, s) = (
        SQISIGN_LVL1_PUBLIC_KEY_BYTES,
        SQISIGN_LVL1_SECRET_KEY_BYTES,
        SQISIGN_LVL1_ENTROPY_BYTES,
        SQISIGN_LVL1_SIGNATURE_BYTES,
    );
    assert!(keygen_args_ok(p, k, e, true, true, true));
    assert!(!keygen_args_ok(p, k, e - 1, true, true, true));
    assert!(!keygen_args_ok(p, k, e, true, true, false));
    assert!(sign_args_ok(s, k, e, true, true, true, false, 0));
    assert!(!sign_args_ok(s, k, e, true, true, true, false, 5));
    assert!(!sign_args_ok(s, k + 1, e, true, true, true, true, 5));
    assert!(!sign_args_ok(s, k, e, false, true, true, true, 5));
}

#[test]
fn callback_args_need_a_callback() {
    let (p, k, s) = (SQISIGN_LVL1_PUBLIC_KEY_BYTES, SQISIGN_LVL1_SECRET_KEY_BYTES, SQISIGN_LVL1_SIGNATURE_BYTES);
    assert!(keygen_with_rng_args_ok(p, k, true, true, true));
    assert!(!keygen_with_rng_args_ok(p, k, true, true, false));
    assert!(!keygen_with_rng_args_ok(p, k, false, true, true));
    assert!(sign_with_rng_args_ok(s, k, true, true, true, 4, true));
    assert!(!sign_with_rng_args_ok(s, k, true, true, true, 4, false));
    assert!(!sign_with_rng_args_ok(s, k, true, true, false, 4, true));
}

#[test]
fn status_is_one_only_for_completed_success() {
    assert_eq!(entry_status(Some(true)), 1);
    assert_eq!(entry_status(Some(false)), 0);
    assert_eq!(entry_status(None), 0);
}
