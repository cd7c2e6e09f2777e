# sqisign_gf

Verified arithmetic in GF(p) and GF(p^2) for the level-1 SQIsign prime
`p = 5 * 2^248 - 1`, written in Verus.

A GF(p) element is five `u64` limbs in unsaturated radix 2^51, in the
Montgomery domain with `R = 2^255`; a GF(p^2) element is a pair of them.
Every public function states, for any input limbs, the exact limbs it
writes, and for well-formed inputs (`fp_wf`) the field element they stand
for.

Layout of `src/`:

- `field_spec.rs` – the model: `limbs_val`, `fp_value`, `fp_wf`, `canonical`.
- `arith.rs`, `bits.rs` – arithmetic and bit-vector lemmas.
- `mont.rs` – Montgomery multiplication and squaring.
- `reduce.rs` – carry propagation, addition, subtraction, negation.
- `canon.rs` – canonical reduction, zero and equality tests.
- `select.rs` – constant-time selection and conditional swap.
- `constants.rs` – the Montgomery constants and their values.
- `fp.rs` – the GF(p) operations.
- `exp.rs` – the fixed exponentiation chain: inverse, square test, square root.
- `codec.rs` – 32-byte encoding and decoding, and reduction of byte strings.
- `ext_spec.rs`, `fp2.rs` – the model of GF(p^2) and its operations.
- `prime.rs` – Euclid's lemma, the binomial theorem, Fermat's little
  theorem and Pocklington's primality criterion.
- `certificate.rs` – the Pocklington certificate that `p` is prime.
- `fermat.rs` – inverses, Euler's criterion and square roots in GF(p) and
  GF(p^2), from the primality of `p`.
- `laws.rs` – properties that relate several operations.
- `abi.rs` – the level-1 C entry points: byte sizes, argument checks, status.
