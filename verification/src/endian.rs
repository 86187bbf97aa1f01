//! Little-endian integers: what a run of bytes stands for, and the decoders
//! that compute it.

use byteorder::{ByteOrder, LittleEndian};
use vstd::prelude::*;

verus! {

/// The unsigned number that the first two bytes stand for, least significant
/// byte first.
pub open spec fn le_u16(bytes: Seq<u8>) -> u16
    recommends
        bytes.len() >= 2,
{
    (bytes[0] + 0x100 * bytes[1]) as u16
}

/// The unsigned number that the first four bytes stand for, least significant
/// byte first.
pub open spec fn le_u32(bytes: Seq<u8>) -> u32
    recommends
        bytes.len() >= 4,
{
    (bytes[0] + 0x100 * bytes[1] + 0x1_0000 * bytes[2] + 0x100_0000 * bytes[3]) as u32
}

/// The unsigned number that the first eight bytes stand for, least significant
/// byte first.
pub open spec fn le_u64(bytes: Seq<u8>) -> u64
    recommends
        bytes.len() >= 8,
{
    (bytes[0] + 0x100 * bytes[1] + 0x1_0000 * bytes[2] + 0x100_0000 * bytes[3] + 0x1_0000_0000
        * bytes[4] + 0x100_0000_0000 * bytes[5] + 0x1_0000_0000_0000 * bytes[6]
        + 0x100_0000_0000_0000 * bytes[7]) as u64
}

/// The two's complement reading of `n`, an unsigned number below `modulus`:
/// the upper half of the range stands for the negative numbers.
pub open spec fn twos_complement(n: int, modulus: int) -> int {
    if 2 * n < modulus {
        n
    } else {
        n - modulus
    }
}

/// The signed number that one byte stands for.
pub open spec fn le_i8(bytes: Seq<u8>) -> i8
    recommends
        bytes.len() >= 1,
{
    twos_complement(bytes[0] as int, 0x100) as i8
}

/// The signed number that the first two bytes stand for.
pub open spec fn le_i16(bytes: Seq<u8>) -> i16
    recommends
        bytes.len() >= 2,
{
    twos_complement(le_u16(bytes) as int, 0x1_0000) as i16
}

/// The signed number that the first four bytes stand for.
pub open spec fn le_i32(bytes: Seq<u8>) -> i32
    recommends
        bytes.len() >= 4,
{
    twos_complement(le_u32(bytes) as int, 0x1_0000_0000) as i32
}

/// The signed number that the first eight bytes stand for.
pub open spec fn le_i64(bytes: Seq<u8>) -> i64
    recommends
        bytes.len() >= 8,
{
    twos_complement(le_u64(bytes) as int, 0x1_0000_0000_0000_0000) as i64
}

/// The canonical little-endian encoding of `value` in `width` bytes: the
/// remainders of repeated division by 256, lowest first. A negative value
/// comes out in two's complement.
pub open spec fn le_bytes(value: int, width: nat) -> Seq<u8>
    decreases width,
{
    if width == 0 {
        Seq::empty()
    } else {
        seq![(value % 0x100) as u8] + le_bytes(value / 0x100, (width - 1) as nat)
    }
}

/// Decodes two bytes with byteorder's `LittleEndian::read_u16`, which hands
/// the first two bytes of the slice to `u16::from_le_bytes` and panics on a
/// shorter slice. Trusted: the result is the little-endian value of those bytes.
#[verifier::external_body]
pub(crate) fn decode_u16(bytes: &[u8]) -> (value: u16)
    requires
        bytes@.len() >= 2,
    ensures
        value == le_u16(bytes@),
{
    LittleEndian::read_u16(bytes)
}

/// Decodes four bytes with byteorder's `LittleEndian::read_u32`, which hands
/// the first four bytes of the slice to `u32::from_le_bytes` and panics on a
/// shorter slice. Trusted: the result is the little-endian value of those bytes.
#[verifier::external_body]
pub(crate) fn decode_u32(bytes: &[u8]) -> (value: u32)
    requires
        bytes@.len() >= 4,
    ensures
        value == le_u32(bytes@),
{
    LittleEndian::read_u32(bytes)
}

/// Decodes eight bytes with byteorder's `LittleEndian::read_u64`, which hands
/// the first eight bytes of the slice to `u64::from_le_bytes` and panics on a
/// shorter slice. Trusted: the result is the little-endian value of those bytes.
#[verifier::external_body]
pub(crate) fn decode_u64(bytes: &[u8]) -> (value: u64)
    requires
        bytes@.len() >= 8,
    ensures
        value == le_u64(bytes@),
{
    LittleEndian::read_u64(bytes)
}

/// Decodes two bytes with byteorder's `LittleEndian::read_i16`, which casts
/// the result of `read_u16` to `i16`. Trusted: the result is the two's
/// complement reading of the little-endian value.
#[verifier::external_body]
pub(crate) fn decode_i16(bytes: &[u8]) -> (value: i16)
    requires
        bytes@.len() >= 2,
    ensures
        value == le_i16(bytes@),
{
    LittleEndian::read_i16(bytes)
}

/// Decodes four bytes with byteorder's `LittleEndian::read_i32`, which casts
/// the result of `read_u32` to `i32`. Trusted: the result is the two's
/// complement reading of the little-endian value.
#[verifier::external_body]
pub(crate) fn decode_i32(bytes: &[u8]) -> (value: i32)
    requires
        bytes@.len() >= 4,
    ensures
        value == le_i32(bytes@),
{
    LittleEndian::read_i32(bytes)
}

/// Decodes eight bytes with byteorder's `LittleEndian::read_i64`, which casts
/// the result of `read_u64` to `i64`. Trusted: the result is the two's
/// complement reading of the little-endian value.
#[verifier::external_body]
pub(crate) fn decode_i64(bytes: &[u8]) -> (value: i64)
    requires
        bytes@.len() >= 8,
    ensures
        value == le_i64(bytes@),
{
    LittleEndian::read_i64(bytes)
}

/// An unsigned 16-bit number decodes from its encoding as itself.
pub proof fn lemma_u16_round_trip(value: u16)
    ensures
        le_bytes(value as int, 2).len() == 2,
        le_u16(le_bytes(value as int, 2)) == value,
{
    reveal_with_fuel(le_bytes, 3);
}

/// An unsigned 32-bit number decodes from its encoding as itself.
pub proof fn lemma_u32_round_trip(value: u32)
    ensures
        le_bytes(value as int, 4).len() == 4,
        le_u32(le_bytes(value as int, 4)) == value,
{
    reveal_with_fuel(le_bytes, 5);
}

/// An unsigned 64-bit number decodes from its encoding as itself.
pub proof fn lemma_u64_round_trip(value: u64)
    ensures
        le_bytes(value as int, 8).len() == 8,
        le_u64(le_bytes(value as int, 8)) == value,
{
    reveal_with_fuel(le_bytes, 9);
}

/// A signed 8-bit number decodes from its encoding as itself.
pub proof fn lemma_i8_round_trip(value: i8)
    ensures
        le_bytes(value as int, 1).len() == 1,
        le_i8(le_bytes(value as int, 1)) == value,
{
    reveal_with_fuel(le_bytes, 2);
}

/// A signed 16-bit number decodes from its encoding as itself.
pub proof fn lemma_i16_round_trip(value: i16)
    ensures
        le_bytes(value as int, 2).len() == 2,
        le_i16(le_bytes(value as int, 2)) == value,
{
    reveal_with_fuel(le_bytes, 3);
}

/// A signed 32-bit number decodes from its encoding as itself.
pub proof fn lemma_i32_round_trip(value: i32)
    ensures
        le_bytes(value as int, 4).len() == 4,
        le_i32(le_bytes(value as int, 4)) == value,
{
    reveal_with_fuel(le_bytes, 5);
}

/// A signed 64-bit number decodes from its encoding as itself.
pub proof fn lemma_i64_round_trip(value: i64)
    ensures
        le_bytes(value as int, 8).len() == 8,
        le_i64(le_bytes(value as int, 8)) == value,
{
    reveal_with_fuel(le_bytes, 9);
}

} // verus!
