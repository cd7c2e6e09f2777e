//! Facts about machine words, each family proved once by bit blasting.
use vstd::prelude::*;

verus! {

/// The wrapping operations of std are truncations of the exact results.
pub proof fn lemma_wrapping(x: u64, y: u64, a: i64, b: i64)
    by (bit_vector)
    ensures
        vstd::wrapping::u64_specs::wrapping_add(x, y) == (x + y) as u64,
        vstd::wrapping::u64_specs::wrapping_sub(x, y) == (x - y) as u64,
        vstd::wrapping::u64_specs::wrapping_mul(x, y) == (x * y) as u64,
        vstd::wrapping::i64_specs::wrapping_add(a, b) == (a + b) as i64,
{
}

/// Masks, low bits, and the zero tests used on limbs below `2^51`.
pub proof fn lemma_word_bits(x: u64, y: u64)
    by (bit_vector)
    ensures
        x & 0xffffffffffffffffu64 == x,
        x & 0u64 == 0,
        x & 0x7ffffffffffffu64 < 0x8000000000000u64,
        x & 0xffu64 == x % 256,
        x & 1u64 == x % 2,
        (x as u8) == (x & 0xffu64) as u8,
        x >> 0u64 == x,
        (x < 0x8000000000000u64 && y < 0x8000000000000u64) ==> (x | y) < 0x8000000000000u64
            && ((x | y) == 0 <==> (x == 0 && y == 0)),
        (x < 0x8000000000000u64 && y < 0x8000000000000u64) ==> (x ^ y) < 0x8000000000000u64
            && ((x ^ y) == 0 <==> x == y),
        x < 0x8000000000000u64 ==> ((((x - 1) as u64) >> 51u64) & 1) == (if x == 0 { 1u64 } else { 0u64 }),
        x < 0x8000000000000u64 ==> (1u64 & (((x - 1) as u64) >> 51u64)) == (if x == 0 { 1u64 } else { 0u64 }),
        x < 0x8000000000000u64 ==> (((((x ^ 1) - 1) as u64) >> 51u64) & 1) == (if x == 1 { 1u64 } else { 0u64 }),
        ((x == 0 || x == 1) && (y == 0 || y == 1)) ==> (x & y) == (if x == 1 && y == 1 { 1u64 } else { 0u64 }),
        x ^ (0u64 & (x ^ y)) == x,
        x ^ (0xffffffffffffffffu64 & (x ^ y)) == y,
        (x == 0 || x == 0xffffffffffffffffu64) ==> (x & 1 == 0 || x & 1 == 1)
            && (x == 0 <==> x & 1 == 0),
{
}

/// Masks and bits of 32-bit words.
pub proof fn lemma_u32_bits(x: u32, y: u32)
    by (bit_vector)
    ensures
        x & 1 == 0 || x & 1 == 1,
        x & 1 == x % 2,
        (x == 0 || x == 1) && (y == 0 || y == 1) ==> (x | y) == (if x == 1 || y == 1 { 1u32 } else { 0u32 })
            && (x & y) == (if x == 1 && y == 1 { 1u32 } else { 0u32 }),
        (x == 0 || x == 0xffffffffu32) && (y == 0 || y == 0xffffffffu32) ==>
            (x & y) == (if x == 0xffffffffu32 && y == 0xffffffffu32 { 0xffffffffu32 } else { 0u32 })
            && (x | y) == (if x == 0xffffffffu32 || y == 0xffffffffu32 { 0xffffffffu32 } else { 0u32 }),
        x == 0xffffffffu32 ==> ((x as i32) as i64) as u64 == 0xffffffffffffffffu64,
        0xffffffffffffffffu64 as u32 == 0xffffffffu32,
{
}

/// Shifting limbs below `2^51` by one byte.
pub proof fn lemma_byte_shifts(x: u64, y: u64, n: u32)
    by (bit_vector)
    ensures
        0 < n <= 51 ==> (1u64 << n) >= 1,
        ((1u64 << 8u32) - 1) as u64 == 0xffu64,
        x >> 8u32 == x / 256,
        (x < 0x8000000000000u64 && y < 0x8000000000000u64) ==>
            ((x >> 8u32) | ((y << 43u32) & 0x7ffffffffffffu64)) == x / 256 + (y % 256) * 0x80000000000u64
            && ((x >> 8u32) | ((y << 43u32) & 0x7ffffffffffffu64)) < 0x8000000000000u64,
        (x < 0x8000000000000u64 && y < 0x8000000000000u64) ==>
            (((x << 8u32) & 0x7ffffffffffffu64) | (y >> 43u32)) == (x % 0x80000000000u64) * 256 + y / 0x80000000000u64
            && (((x << 8u32) & 0x7ffffffffffffu64) | (y >> 43u32)) < 0x8000000000000u64,
        x < 0x8000000000000u64 ==> (x << 8u32) & 0x7ffffffffffffu64 == (x % 0x80000000000u64) * 256
            && (x << 8u32) & 0x7ffffffffffffu64 < 0x8000000000000u64 - 255,
        (x < 0x100000000000000u64 && y < 0x8000000000000u64) ==>
            (x << 8u32) | (y >> 43u32) == x * 256 + y / 0x80000000000u64,
{
}

/// Splitting off the top byte of a word, and dividing it by 5.
pub proof fn lemma_top_byte(x: u64, y: u64)
    by (bit_vector)
    ensures
        x >> 56u64 < 256 && (x >> 56u64) * 0x100000000000000u64 + (x & 0xffffffffffffffu64) == x
            && (x & 0xffffffffffffffu64) < 0x100000000000000u64,
        x < 256 ==> (vstd::wrapping::u64_specs::wrapping_mul(x, 0xCD) >> 10u64) == x / 5,
        (x < 256 && y == x / 5) ==> vstd::wrapping::u64_specs::wrapping_sub(x,
            vstd::wrapping::u64_specs::wrapping_mul(5u64, y)) == x % 5,
        x < 5 ==> x << 56u64 == x * 0x100000000000000u64,
{
}

/// The low 51 bits and the rest of a 128-bit accumulator; the low word and
/// the carry of a small sum.
pub proof fn lemma_u128_bits(t: u128)
    by (bit_vector)
    ensures
        ((t as u64) & 0x7ffffffffffffu64) as u128 == t % 0x8000000000000u128,
        t >> 51u128 == t / 0x8000000000000u128,
        (t as u64) & 0x7ffffffffffffu64 < 0x8000000000000u64,
        t < 0x30000000000000000u128 ==> (t as u64) + (t >> 64u128) * 0x10000000000000000u128 == t
            && (t >> 64u128) <= 2,
{
}

/// Narrowing to 32 bits after a sign extension gives back the narrow word.
pub proof fn lemma_narrowing(val: u64)
    by (bit_vector)
    ensures
        (((val as i32) as i64) as u64) as i32 == val as i32,
{
}

/// Widening a 32-bit word and narrowing it back gives the same signed word.
pub proof fn lemma_narrowing_u32(val: u32)
    by (bit_vector)
    ensures
        (val as u64) as i32 == val as i32,
{
}

} // verus!
