//! Byte reversal of the multi-byte integers.
//!
//! `swap16` to `swap128` say what reversing the bytes of an unsigned integer
//! gives; a signed integer is reversed through the unsigned integer with the
//! same bits. The lemmas show that the definitions move byte `i` to the
//! mirrored place and that reversing twice gives the integer back. The
//! executable functions compute the reversals.

use vstd::prelude::*;

verus! {

/// Byte `i` of `x`, counted from the least significant.
pub open spec fn byte_of(x: u128, i: int) -> u8 {
    ((x >> ((8 * i) as u128)) & 0xff) as u8
}

/// `x` with its two bytes exchanged.
pub open spec fn swap16(x: u16) -> u16 {
    (x << 8) | (x >> 8)
}

/// `x` with its four bytes in reverse order: each half reversed, and the
/// halves exchanged.
pub open spec fn swap32(x: u32) -> u32 {
    ((swap16(x as u16) as u32) << 16) | (swap16((x >> 16) as u16) as u32)
}

/// `x` with its eight bytes in reverse order.
pub open spec fn swap64(x: u64) -> u64 {
    ((swap32(x as u32) as u64) << 32) | (swap32((x >> 32) as u32) as u64)
}

/// `x` with its sixteen bytes in reverse order.
pub open spec fn swap128(x: u128) -> u128 {
    ((swap64(x as u64) as u128) << 64) | (swap64((x >> 64) as u64) as u128)
}

/// `x` with its bytes in reverse order.
pub open spec fn swap_signed16(x: i16) -> i16 {
    swap16(x as u16) as i16
}

/// `x` with its bytes in reverse order.
pub open spec fn swap_signed32(x: i32) -> i32 {
    swap32(x as u32) as i32
}

/// `x` with its bytes in reverse order.
pub open spec fn swap_signed64(x: i64) -> i64 {
    swap64(x as u64) as i64
}

/// `x` with its bytes in reverse order.
pub open spec fn swap_signed128(x: i128) -> i128 {
    swap128(x as u128) as i128
}

/// Byte `i` of the reversal is byte `1 - i` of the original.
pub proof fn lemma_swap16_bytes(x: u16, i: int)
    requires
        0 <= i < 2,
    ensures
        byte_of(swap16(x) as u128, i) == byte_of(x as u128, 1 - i),
{
    let y = swap16(x);
    assert(((y as u128 >> 0) & 0xff) as u8 == ((x as u128 >> 8) & 0xff) as u8
        && ((y as u128 >> 8) & 0xff) as u8 == ((x as u128 >> 0) & 0xff) as u8) by (bit_vector)
        requires
            y == swap16(x),
    ;
}

/// Byte `i` of the reversal is byte `3 - i` of the original.
pub proof fn lemma_swap32_bytes(x: u32, i: int)
    requires
        0 <= i < 4,
    ensures
        byte_of(swap32(x) as u128, i) == byte_of(x as u128, 3 - i),
{
    let y = swap32(x);
    assert(((y as u128 >> 0) & 0xff) as u8 == ((x as u128 >> 24) & 0xff) as u8
        && ((y as u128 >> 8) & 0xff) as u8 == ((x as u128 >> 16) & 0xff) as u8
        && ((y as u128 >> 16) & 0xff) as u8 == ((x as u128 >> 8) & 0xff) as u8
        && ((y as u128 >> 24) & 0xff) as u8 == ((x as u128 >> 0) & 0xff) as u8) by (bit_vector)
        requires
            y == swap32(x),
    ;
}

/// Byte `i` of the reversal is byte `7 - i` of the original.
pub proof fn lemma_swap64_bytes(x: u64, i: int)
    requires
        0 <= i < 8,
    ensures
        byte_of(swap64(x) as u128, i) == byte_of(x as u128, 7 - i),
{
    let y = swap64(x);
    assert(((y as u128 >> 0) & 0xff) as u8 == ((x as u128 >> 56) & 0xff) as u8
        && ((y as u128 >> 8) & 0xff) as u8 == ((x as u128 >> 48) & 0xff) as u8
        && ((y as u128 >> 16) & 0xff) as u8 == ((x as u128 >> 40) & 0xff) as u8
        && ((y as u128 >> 24) & 0xff) as u8 == ((x as u128 >> 32) & 0xff) as u8
        && ((y as u128 >> 32) & 0xff) as u8 == ((x as u128 >> 24) & 0xff) as u8
        && ((y as u128 >> 40) & 0xff) as u8 == ((x as u128 >> 16) & 0xff) as u8
        && ((y as u128 >> 48) & 0xff) as u8 == ((x as u128 >> 8) & 0xff) as u8
        && ((y as u128 >> 56) & 0xff) as u8 == ((x as u128 >> 0) & 0xff) as u8) by (bit_vector)
        requires
            y == swap64(x),
    ;
}

/// Byte `i` of the reversal is byte `15 - i` of the original.
pub proof fn lemma_swap128_bytes(x: u128, i: int)
    requires
        0 <= i < 16,
    ensures
        byte_of(swap128(x) as u128, i) == byte_of(x as u128, 15 - i),
{
    let y = swap128(x);
    assert(((y as u128 >> 0) & 0xff) as u8 == ((x as u128 >> 120) & 0xff) as u8
        && ((y as u128 >> 8) & 0xff) as u8 == ((x as u128 >> 112) & 0xff) as u8
        && ((y as u128 >> 16) & 0xff) as u8 == ((x as u128 >> 104) & 0xff) as u8
        && ((y as u128 >> 24) & 0xff) as u8 == ((x as u128 >> 96) & 0xff) as u8
        && ((y as u128 >> 32) & 0xff) as u8 == ((x as u128 >> 88) & 0xff) as u8
        && ((y as u128 >> 40) & 0xff) as u8 == ((x as u128 >> 80) & 0xff) as u8
        && ((y as u128 >> 48) & 0xff) as u8 == ((x as u128 >> 72) & 0xff) as u8
        && ((y as u128 >> 56) & 0xff) as u8 == ((x as u128 >> 64) & 0xff) as u8
        && ((y as u128 >> 64) & 0xff) as u8 == ((x as u128 >> 56) & 0xff) as u8
        && ((y as u128 >> 72) & 0xff) as u8 == ((x as u128 >> 48) & 0xff) as u8
        && ((y as u128 >> 80) & 0xff) as u8 == ((x as u128 >> 40) & 0xff) as u8
        && ((y as u128 >> 88) & 0xff) as u8 == ((x as u128 >> 32) & 0xff) as u8
        && ((y as u128 >> 96) & 0xff) as u8 == ((x as u128 >> 24) & 0xff) as u8
        && ((y as u128 >> 104) & 0xff) as u8 == ((x as u128 >> 16) & 0xff) as u8
        && ((y as u128 >> 112) & 0xff) as u8 == ((x as u128 >> 8) & 0xff) as u8
        && ((y as u128 >> 120) & 0xff) as u8 == ((x as u128 >> 0) & 0xff) as u8) by (bit_vector)
        requires
            y == swap128(x),
    ;
}

/// Reversing twice gives the integer back.
pub proof fn lemma_swap16_twice(x: u16)
    ensures
        swap16(swap16(x)) == x,
{
    assert(swap16(swap16(x)) == x) by (bit_vector);
}

/// Reversing twice gives the integer back.
pub proof fn lemma_swap_signed16_twice(x: i16)
    ensures
        swap_signed16(swap_signed16(x)) == x,
{
    assert(swap16((swap16(x as u16) as i16) as u16) as i16 == x) by (bit_vector);
}

/// Reversing twice gives the integer back.
pub proof fn lemma_swap32_twice(x: u32)
    ensures
        swap32(swap32(x)) == x,
{
    assert(swap32(swap32(x)) == x) by (bit_vector);
}

/// Reversing twice gives the integer back.
pub proof fn lemma_swap_signed32_twice(x: i32)
    ensures
        swap_signed32(swap_signed32(x)) == x,
{
    assert(swap32((swap32(x as u32) as i32) as u32) as i32 == x) by (bit_vector);
}

/// Reversing twice gives the integer back.
pub proof fn lemma_swap64_twice(x: u64)
    ensures
        swap64(swap64(x)) == x,
{
    assert(swap64(swap64(x)) == x) by (bit_vector);
}

/// Reversing twice gives the integer back.
pub proof fn lemma_swap_signed64_twice(x: i64)
    ensures
        swap_signed64(swap_signed64(x)) == x,
{
    assert(swap64((swap64(x as u64) as i64) as u64) as i64 == x) by (bit_vector);
}

/// Reversing twice gives the integer back.
pub proof fn lemma_swap128_twice(x: u128)
    ensures
        swap128(swap128(x)) == x,
{
    assert(swap128(swap128(x)) == x) by (bit_vector);
}

/// Reversing twice gives the integer back.
pub proof fn lemma_swap_signed128_twice(x: i128)
    ensures
        swap_signed128(swap_signed128(x)) == x,
{
    assert(swap128((swap128(x as u128) as i128) as u128) as i128 == x) by (bit_vector);
}

/// Reverses the bytes of a `u16`.
pub fn swap_u16(x: u16) -> (r: u16)
    ensures
        r == swap16(x),
{
    (x << 8) | (x >> 8)
}

/// Reverses the bytes of a `u32`.
pub fn swap_u32(x: u32) -> (r: u32)
    ensures
        r == swap32(x),
{
    let low = swap_u16(#[verifier::truncate] (x as u16));
    let high = swap_u16(#[verifier::truncate] ((x >> 16) as u16));
    ((low as u32) << 16) | (high as u32)
}

/// Reverses the bytes of a `u64`.
pub fn swap_u64(x: u64) -> (r: u64)
    ensures
        r == swap64(x),
{
    let low = swap_u32(#[verifier::truncate] (x as u32));
    let high = swap_u32(#[verifier::truncate] ((x >> 32) as u32));
    ((low as u64) << 32) | (high as u64)
}

/// Reverses the bytes of a `u128`.
pub fn swap_u128(x: u128) -> (r: u128)
    ensures
        r == swap128(x),
{
    let low = swap_u64(#[verifier::truncate] (x as u64));
    let high = swap_u64(#[verifier::truncate] ((x >> 64) as u64));
    ((low as u128) << 64) | (high as u128)
}

/// Reverses the bytes of an `i16`.
pub fn swap_i16(x: i16) -> (r: i16)
    ensures
        r == swap_signed16(x),
{
    #[verifier::truncate] (swap_u16(#[verifier::truncate] (x as u16)) as i16)
}

/// Reverses the bytes of an `i32`.
pub fn swap_i32(x: i32) -> (r: i32)
    ensures
        r == swap_signed32(x),
{
    #[verifier::truncate] (swap_u32(#[verifier::truncate] (x as u32)) as i32)
}

/// Reverses the bytes of an `i64`.
pub fn swap_i64(x: i64) -> (r: i64)
    ensures
        r == swap_signed64(x),
{
    #[verifier::truncate] (swap_u64(#[verifier::truncate] (x as u64)) as i64)
}

/// Reverses the bytes of an `i128`.
pub fn swap_i128(x: i128) -> (r: i128)
    ensures
        r == swap_signed128(x),
{
    #[verifier::truncate] (swap_u128(#[verifier::truncate] (x as u128)) as i128)
}

} // verus!
