//! Addition of signed integers, narrowed to 32 bits.
//!
//! Two variants are offered. [`add_numbers`] takes 32-bit operands and adds them
//! at that width. [`add_my_numbers`] takes 64-bit operands, adds them at 64-bit
//! width and keeps the low 32 bits of the sum.

use vstd::prelude::*;

verus! {

/// The signed 32-bit value that shares its low 32 bits with `x`: the integer in
/// `-2^31 .. 2^31` that differs from `x` by a multiple of `2^32`.
pub open spec fn wrap_i32(x: int) -> int {
    let low = x % 0x1_0000_0000;
    if low < 0x8000_0000 {
        low
    } else {
        low - 0x1_0000_0000
    }
}

/// The signed 64-bit value that shares its low 64 bits with `x`: the integer in
/// `-2^63 .. 2^63` that differs from `x` by a multiple of `2^64`.
pub open spec fn wrap_i64(x: int) -> int {
    let low = x % 0x1_0000_0000_0000_0000;
    if low < 0x8000_0000_0000_0000 {
        low
    } else {
        low - 0x1_0000_0000_0000_0000
    }
}

/// Adds two signed 32-bit integers. A sum outside the 32-bit range wraps around.
pub fn add_numbers(left: i32, right: i32) -> (sum: i32)
    ensures
        sum == wrap_i32(left + right),
{
    left.wrapping_add(right)
}

/// Adds two signed 64-bit integers. A sum outside the 64-bit range wraps around.
pub fn add_wide(left: i64, right: i64) -> (sum: i64)
    ensures
        sum == wrap_i64(left + right),
{
    left.wrapping_add(right)
}

/// Keeps the low 32 bits of a 64-bit integer and reads them as a signed value.
pub fn narrow_to_i32(wide: i64) -> (low: i32)
    ensures
        low == wrap_i32(wide as int),
{
    assert(wide as i32 == wrap_i32(wide as int)) by (bit_vector);
    #[verifier::truncate]
    (wide as i32)
}

/// Adds two integers at 64-bit width and narrows the sum to 32 bits. Nothing is
/// signalled when the sum does not fit: the result holds the low 32 bits of the
/// exact sum.
pub fn add_my_numbers(left: i64, right: i64) -> (sum: i32)
    ensures
        sum == wrap_i32(wrap_i64(left + right)),
        sum == wrap_i32(left + right),
{
    proof {
        lemma_narrowing_forgets_wide_wrap(left + right);
    }
    narrow_to_i32(add_wide(left, right))
}

/// Wrapping to 64 bits first does not change the low 32 bits.
pub proof fn lemma_narrowing_forgets_wide_wrap(x: int)
    ensures
        wrap_i32(wrap_i64(x)) == wrap_i32(x),
{
}

/// The 32-bit addition and the widened addition return the same result on every
/// pair of 32-bit operands, and that result is the exact sum whenever the exact
/// sum is a 32-bit value.
pub proof fn lemma_addition_variants_agree(left: i32, right: i32)
    ensures
        wrap_i32(wrap_i64(left as i64 + right as i64)) == wrap_i32(left + right),
        i32::MIN <= left + right <= i32::MAX ==> wrap_i32(left + right) == left + right,
{
}

} // verus!
