//! Conversions between the caller's parameter types and the engine's
//! native signed 32-bit integers.

use vstd::prelude::*;

verus! {

/// Two to the power 32: the number of values of a 32-bit integer.
pub open spec fn two_pow_32() -> int {
    0x1_0000_0000
}

/// The unsigned 32-bit value with the same bits as a native integer.
pub open spec fn rate_of_native(raw: i32) -> int {
    if raw >= 0 {
        raw as int
    } else {
        raw + two_pow_32()
    }
}

/// The native integer with the same bits as an unsigned 32-bit value.
pub open spec fn native_of_rate(rate: u32) -> int {
    if rate <= i32::MAX {
        rate as int
    } else {
        rate - two_pow_32()
    }
}

/// The low eight bits of a native integer, as an unsigned value.
pub open spec fn byte_of_native(raw: i32) -> int {
    raw as int % 256
}

/// Reads a sample rate out of a native integer, keeping its bits.
pub fn rate_from_native(raw: i32) -> (rate: u32)
    ensures
        rate == rate_of_native(raw),
{
    assert(raw < 0 ==> (raw as u32) as i64 == raw as i64 + 0x1_0000_0000i64) by (bit_vector);
    #[verifier::truncate]
    (raw as u32)
}

/// Writes a sample rate into a native integer, keeping its bits.
pub fn rate_to_native(rate: u32) -> (raw: i32)
    ensures
        raw == native_of_rate(rate),
{
    assert(rate > 0x7fff_ffffu32 ==> (rate as i32) as i64 == rate as i64 - 0x1_0000_0000i64)
        by (bit_vector);
    #[verifier::truncate]
    (rate as i32)
}

/// Reads a channel count or a quality level out of a native integer,
/// keeping its low eight bits.
pub fn byte_from_native(raw: i32) -> (byte: u8)
    ensures
        byte == byte_of_native(raw),
{
    assert((raw as u8) as i32 == raw & 0xffi32) by (bit_vector);
    assert(raw & 0xffi32 == (raw as int) % 256) by (bit_vector);
    #[verifier::truncate]
    (raw as u8)
}

/// Writes a channel count or a quality level into a native integer.
pub fn byte_to_native(byte: u8) -> (raw: i32)
    ensures
        raw == byte,
{
    byte as i32
}

/// Whether a buffer length fits the engine's native size type.
pub fn fits_int_size(sz: usize) -> (fits: bool)
    ensures
        fits == (sz <= i32::MAX),
{
    sz <= i32::MAX as usize
}

/// Converts a buffer length to the engine's native size type.
pub fn int_size(sz: usize) -> (size: i32)
    requires
        sz <= i32::MAX,
    ensures
        size == sz,
{
    sz as i32
}

/// A sample rate that the engine hands back as it was handed to it is
/// read as the rate that was set, whatever the rate.
pub proof fn lemma_rate_round_trip(rate: u32)
    ensures
        i32::MIN <= native_of_rate(rate) <= i32::MAX,
        rate_of_native(native_of_rate(rate) as i32) == rate,
{
}

/// Every native integer is the image of the sample rate that it is read
/// as: the two conversions are inverse to each other, so neither loses
/// anything.
pub proof fn lemma_native_round_trip(raw: i32)
    ensures
        0 <= rate_of_native(raw) <= u32::MAX,
        native_of_rate(rate_of_native(raw) as u32) == raw,
{
}

/// A channel count or a quality level that the engine hands back as it
/// was handed to it is read as the value that was set, whatever the
/// value.
pub proof fn lemma_byte_round_trip(byte: u8)
    ensures
        byte_of_native(byte as i32) == byte,
{
}

/// What is read out of a native integer is a byte, and it is the integer
/// itself where that is a byte already.
pub proof fn lemma_byte_of_native_range(raw: i32)
    ensures
        0 <= byte_of_native(raw) <= u8::MAX,
        0 <= raw <= u8::MAX ==> byte_of_native(raw) == raw,
{
}

} // verus!
