//! Checksum of a text: the sum of its bytes in a 32-bit accumulator.

use vstd::prelude::*;
use vstd::string::StringSliceAdditionalSpecFns;
use vstd::wrapping::u32_specs;

verus! {

/// The exact sum of the numeric values of the bytes.
pub open spec fn byte_sum(bytes: Seq<u8>) -> nat
    decreases bytes.len(),
{
    if bytes.len() == 0 {
        0
    } else {
        byte_sum(bytes.drop_last()) + bytes.last() as nat
    }
}

/// The sum of the bytes as an unsigned 32-bit accumulator holds it: whatever
/// exceeds 32 bits is discarded.
pub open spec fn wrapping_byte_sum(bytes: Seq<u8>) -> nat {
    byte_sum(bytes) % 0x1_0000_0000
}

/// Appending one byte advances the checksum by one wrapping 32-bit addition.
pub proof fn lemma_wrapping_byte_sum_push(bytes: Seq<u8>, byte: u8)
    ensures
        wrapping_byte_sum(bytes.push(byte)) == u32_specs::wrapping_add(
            wrapping_byte_sum(bytes) as u32,
            byte as u32,
        ),
{
    assert(bytes.push(byte).drop_last() =~= bytes);
}

/// Checksum of a byte string.
pub fn checksum_of_bytes(bytes: &[u8]) -> (sum: u32)
    ensures
        sum == wrapping_byte_sum(bytes@),
{
    let mut sum: u32 = 0;
    let mut done: usize = 0;
    while done < bytes.len()
        invariant
            done <= bytes.len(),
            sum == wrapping_byte_sum(bytes@.take(done as int)),
        decreases bytes.len() - done,
    {
        proof {
            lemma_wrapping_byte_sum_push(bytes@.take(done as int), bytes@[done as int]);
            assert(bytes@.take(done + 1) =~= bytes@.take(done as int).push(bytes@[done as int]));
        }
        sum = sum.wrapping_add(bytes[done] as u32);
        done += 1;
    }
    assert(bytes@.take(done as int) =~= bytes@);
    sum
}

/// Checksum of a text: the wrapping sum of the bytes of its UTF-8 encoding.
pub fn checksum_from_rust(input: &str) -> (sum: u32)
    ensures
        sum == wrapping_byte_sum(input.spec_bytes()),
{
    checksum_of_bytes(input.as_bytes())
}

} // verus!
