use sqisign_gf::{nres, Fp, MONTGOMERY_ONE, NWORDS_FIELD};

#[test]
fn nres_of_positional_one_is_montgomery_one() {
    let positional_one: Fp = [1, 0, 0, 0, 0];
    let mut out: Fp = [0u64; NWORDS_FIELD];
    nres(&positional_one, &mut out);
    assert_eq!(
        out, MONTGOMERY_ONE,
        "nres(positional 1) must equal the Montgomery representative of 1; \
         a mismatch indicates NRES_C or MONTGOMERY_ONE was transcribed wrong"
    );
}
