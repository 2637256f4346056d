//! The byte-order model: byte-swap functions for the fixed-width integers,
//! their involution lemmas, and the probe that tells the byte order of the
//! target the program was compiled for.
//!
//! The target's byte order is abstracted by `vstd::endian::endianness()`.
//! Exactly one function here is trusted: the wrapper around `u16::to_be`,
//! whose documented behaviour ties that abstraction to the running machine.

use vstd::prelude::*;
use vstd::endian::Endian;
use vstd::endian::endianness;

verus! {

/// True when the target this program was compiled for stores its most
/// significant byte first.
pub open spec fn target_big() -> bool {
    endianness() == Endian::Big
}

pub open spec fn spec_swap_bytes_u16(x: u16) -> u16 {
    ((x & 0xff) << 8) | ((x >> 8) & 0xff)
}

pub open spec fn spec_swap_bytes_u32(x: u32) -> u32 {
    ((x & 0xff) << 24) | (((x >> 8) & 0xff) << 16) | (((x >> 16) & 0xff) << 8) | ((x >> 24)
        & 0xff)
}

pub open spec fn spec_swap_bytes_u64(x: u64) -> u64 {
    ((x & 0xff) << 56) | (((x >> 8) & 0xff) << 48) | (((x >> 16) & 0xff) << 40) | (((x >> 24)
        & 0xff) << 32) | (((x >> 32) & 0xff) << 24) | (((x >> 40) & 0xff) << 16) | (((x >> 48)
        & 0xff) << 8) | ((x >> 56) & 0xff)
}

pub open spec fn spec_swap_bytes_u128(x: u128) -> u128 {
    ((x & 0xff) << 120) | (((x >> 8) & 0xff) << 112) | (((x >> 16) & 0xff) << 104) | (((x >> 24)
        & 0xff) << 96) | (((x >> 32) & 0xff) << 88) | (((x >> 40) & 0xff) << 80) | (((x >> 48)
        & 0xff) << 72) | (((x >> 56) & 0xff) << 64) | (((x >> 64) & 0xff) << 56) | (((x >> 72)
        & 0xff) << 48) | (((x >> 80) & 0xff) << 40) | (((x >> 88) & 0xff) << 32) | (((x >> 96)
        & 0xff) << 24) | (((x >> 104) & 0xff) << 16) | (((x >> 112) & 0xff) << 8) | ((x >> 120)
        & 0xff)
}

pub open spec fn spec_swap_bytes_i16(x: i16) -> i16 {
    spec_swap_bytes_u16(x as u16) as i16
}

pub open spec fn spec_swap_bytes_i32(x: i32) -> i32 {
    spec_swap_bytes_u32(x as u32) as i32
}

pub open spec fn spec_swap_bytes_i64(x: i64) -> i64 {
    spec_swap_bytes_u64(x as u64) as i64
}

pub open spec fn spec_swap_bytes_i128(x: i128) -> i128 {
    spec_swap_bytes_u128(x as u128) as i128
}

pub fn swap_bytes_u16(x: u16) -> (r: u16)
    ensures
        r == spec_swap_bytes_u16(x),
{
    ((x & 0xff) << 8) | ((x >> 8) & 0xff)
}

pub fn swap_bytes_u32(x: u32) -> (r: u32)
    ensures
        r == spec_swap_bytes_u32(x),
{
    ((x & 0xff) << 24) | (((x >> 8) & 0xff) << 16) | (((x >> 16) & 0xff) << 8) | ((x >> 24)
        & 0xff)
}

pub fn swap_bytes_u64(x: u64) -> (r: u64)
    ensures
        r == spec_swap_bytes_u64(x),
{
    ((x & 0xff) << 56) | (((x >> 8) & 0xff) << 48) | (((x >> 16) & 0xff) << 40) | (((x >> 24)
        & 0xff) << 32) | (((x >> 32) & 0xff) << 24) | (((x >> 40) & 0xff) << 16) | (((x >> 48)
        & 0xff) << 8) | ((x >> 56) & 0xff)
}

pub fn swap_bytes_u128(x: u128) -> (r: u128)
    ensures
        r == spec_swap_bytes_u128(x),
{
    ((x & 0xff) << 120) | (((x >> 8) & 0xff) << 112) | (((x >> 16) & 0xff) << 104) | (((x >> 24)
        & 0xff) << 96) | (((x >> 32) & 0xff) << 88) | (((x >> 40) & 0xff) << 80) | (((x >> 48)
        & 0xff) << 72) | (((x >> 56) & 0xff) << 64) | (((x >> 64) & 0xff) << 56) | (((x >> 72)
        & 0xff) << 48) | (((x >> 80) & 0xff) << 40) | (((x >> 88) & 0xff) << 32) | (((x >> 96)
        & 0xff) << 24) | (((x >> 104) & 0xff) << 16) | (((x >> 112) & 0xff) << 8) | ((x >> 120)
        & 0xff)
}

pub fn swap_bytes_i16(x: i16) -> (r: i16)
    ensures
        r == spec_swap_bytes_i16(x),
{
    swap_bytes_u16(x as u16) as i16
}

pub fn swap_bytes_i32(x: i32) -> (r: i32)
    ensures
        r == spec_swap_bytes_i32(x),
{
    swap_bytes_u32(x as u32) as i32
}

pub fn swap_bytes_i64(x: i64) -> (r: i64)
    ensures
        r == spec_swap_bytes_i64(x),
{
    swap_bytes_u64(x as u64) as i64
}

pub fn swap_bytes_i128(x: i128) -> (r: i128)
    ensures
        r == spec_swap_bytes_i128(x),
{
    swap_bytes_u128(x as u128) as i128
}

/// Swapping the bytes of a 16-bit word twice gives the word back.
pub proof fn lemma_swap_bytes_u16_involution(x: u16)
    ensures
        spec_swap_bytes_u16(spec_swap_bytes_u16(x)) == x,
{
    let y = spec_swap_bytes_u16(x);
    assert(((y & 0xff) << 8) | ((y >> 8) & 0xff) == x) by (bit_vector)
        requires
            y == ((x & 0xff) << 8) | ((x >> 8) & 0xff),
    ;
}

/// Swapping the bytes of a 32-bit word twice gives the word back.
pub proof fn lemma_swap_bytes_u32_involution(x: u32)
    ensures
        spec_swap_bytes_u32(spec_swap_bytes_u32(x)) == x,
{
    let y = spec_swap_bytes_u32(x);
    assert(((y & 0xff) << 24) | (((y >> 8) & 0xff) << 16) | (((y >> 16) & 0xff) << 8) | ((y >> 24)
        & 0xff) == x) by (bit_vector)
        requires
            y == ((x & 0xff) << 24) | (((x >> 8) & 0xff) << 16) | (((x >> 16) & 0xff) << 8) | ((x
                >> 24) & 0xff),
    ;
}

/// Swapping the bytes of a 64-bit word twice gives the word back.
pub proof fn lemma_swap_bytes_u64_involution(x: u64)
    ensures
        spec_swap_bytes_u64(spec_swap_bytes_u64(x)) == x,
{
    let y = spec_swap_bytes_u64(x);
    assert(((y & 0xff) << 56) | (((y >> 8) & 0xff) << 48) | (((y >> 16) & 0xff) << 40) | (((y
        >> 24) & 0xff) << 32) | (((y >> 32) & 0xff) << 24) | (((y >> 40) & 0xff) << 16) | (((y
        >> 48) & 0xff) << 8) | ((y >> 56) & 0xff) == x) by (bit_vector)
        requires
            y == ((x & 0xff) << 56) | (((x >> 8) & 0xff) << 48) | (((x >> 16) & 0xff) << 40) | (((x
                >> 24) & 0xff) << 32) | (((x >> 32) & 0xff) << 24) | (((x >> 40) & 0xff) << 16) | (
            ((x >> 48) & 0xff) << 8) | ((x >> 56) & 0xff),
    ;
}

/// Swapping the bytes of a 128-bit word twice gives the word back.
pub proof fn lemma_swap_bytes_u128_involution(x: u128)
    ensures
        spec_swap_bytes_u128(spec_swap_bytes_u128(x)) == x,
{
    let y = spec_swap_bytes_u128(x);
    assert(((y & 0xff) << 120) | (((y >> 8) & 0xff) << 112) | (((y >> 16) & 0xff) << 104) | (((y
        >> 24) & 0xff) << 96) | (((y >> 32) & 0xff) << 88) | (((y >> 40) & 0xff) << 80) | (((y
        >> 48) & 0xff) << 72) | (((y >> 56) & 0xff) << 64) | (((y >> 64) & 0xff) << 56) | (((y
        >> 72) & 0xff) << 48) | (((y >> 80) & 0xff) << 40) | (((y >> 88) & 0xff) << 32) | (((y
        >> 96) & 0xff) << 24) | (((y >> 104) & 0xff) << 16) | (((y >> 112) & 0xff) << 8) | ((y
        >> 120) & 0xff) == x) by (bit_vector)
        requires
            y == ((x & 0xff) << 120) | (((x >> 8) & 0xff) << 112) | (((x >> 16) & 0xff) << 104) | (
            ((x >> 24) & 0xff) << 96) | (((x >> 32) & 0xff) << 88) | (((x >> 40) & 0xff) << 80) | (
            ((x >> 48) & 0xff) << 72) | (((x >> 56) & 0xff) << 64) | (((x >> 64) & 0xff) << 56) | (
            ((x >> 72) & 0xff) << 48) | (((x >> 80) & 0xff) << 40) | (((x >> 88) & 0xff) << 32) | (
            ((x >> 96) & 0xff) << 24) | (((x >> 104) & 0xff) << 16) | (((x >> 112) & 0xff) << 8) | (
            (x >> 120) & 0xff),
    ;
}

/// Swapping the bytes of a signed 16-bit word twice gives the word back.
pub proof fn lemma_swap_bytes_i16_involution(x: i16)
    ensures
        spec_swap_bytes_i16(spec_swap_bytes_i16(x)) == x,
{
    lemma_swap_bytes_u16_involution(x as u16);
    assert(spec_swap_bytes_u16(x as u16) as i16 as u16 == spec_swap_bytes_u16(x as u16))
        by (bit_vector);
    assert(x as u16 as i16 == x) by (bit_vector);
}

/// Swapping the bytes of a signed 32-bit word twice gives the word back.
pub proof fn lemma_swap_bytes_i32_involution(x: i32)
    ensures
        spec_swap_bytes_i32(spec_swap_bytes_i32(x)) == x,
{
    lemma_swap_bytes_u32_involution(x as u32);
    assert(spec_swap_bytes_u32(x as u32) as i32 as u32 == spec_swap_bytes_u32(x as u32))
        by (bit_vector);
    assert(x as u32 as i32 == x) by (bit_vector);
}

/// Swapping the bytes of a signed 64-bit word twice gives the word back.
pub proof fn lemma_swap_bytes_i64_involution(x: i64)
    ensures
        spec_swap_bytes_i64(spec_swap_bytes_i64(x)) == x,
{
    lemma_swap_bytes_u64_involution(x as u64);
    assert(spec_swap_bytes_u64(x as u64) as i64 as u64 == spec_swap_bytes_u64(x as u64))
        by (bit_vector);
    assert(x as u64 as i64 == x) by (bit_vector);
}

/// Swapping the bytes of a signed 128-bit word twice gives the word back.
pub proof fn lemma_swap_bytes_i128_involution(x: i128)
    ensures
        spec_swap_bytes_i128(spec_swap_bytes_i128(x)) == x,
{
    lemma_swap_bytes_u128_involution(x as u128);
    assert(spec_swap_bytes_u128(x as u128) as i128 as u128 == spec_swap_bytes_u128(x as u128))
        by (bit_vector);
    assert(x as u128 as i128 == x) by (bit_vector);
}

pub open spec fn spec_swap_bytes_usize(x: usize) -> usize {
    if usize::BITS == 64 {
        spec_swap_bytes_u64(x as u64) as usize
    } else {
        spec_swap_bytes_u32(x as u32) as usize
    }
}

pub open spec fn spec_swap_bytes_isize(x: isize) -> isize {
    if usize::BITS == 64 {
        spec_swap_bytes_i64(x as i64) as isize
    } else {
        spec_swap_bytes_i32(x as i32) as isize
    }
}

pub fn swap_bytes_usize(x: usize) -> (r: usize)
    ensures
        r == spec_swap_bytes_usize(x),
{
    if usize::BITS == 64 {
        swap_bytes_u64(x as u64) as usize
    } else {
        swap_bytes_u32(x as u32) as usize
    }
}

pub fn swap_bytes_isize(x: isize) -> (r: isize)
    ensures
        r == spec_swap_bytes_isize(x),
{
    if usize::BITS == 64 {
        swap_bytes_i64(x as i64) as isize
    } else {
        swap_bytes_i32(x as i32) as isize
    }
}

/// Swapping the bytes of a pointer-width word twice gives the word back.
pub proof fn lemma_swap_bytes_usize_involution(x: usize)
    ensures
        spec_swap_bytes_usize(spec_swap_bytes_usize(x)) == x,
{
    if usize::BITS == 64 {
        lemma_swap_bytes_u64_involution(x as u64);
    } else {
        lemma_swap_bytes_u32_involution(x as u32);
    }
}

/// Swapping the bytes of a signed pointer-width word twice gives the word
/// back.
pub proof fn lemma_swap_bytes_isize_involution(x: isize)
    ensures
        spec_swap_bytes_isize(spec_swap_bytes_isize(x)) == x,
{
    if usize::BITS == 64 {
        lemma_swap_bytes_i64_involution(x as i64);
    } else {
        lemma_swap_bytes_i32_involution(x as i32);
    }
}

/// Relies on `u16::to_be`: std documents it as the identity on a big-endian
/// target and as a swap of the two bytes on a little-endian target.
#[verifier::external_body]
fn to_be_u16(x: u16) -> (r: u16)
    ensures
        r == (if target_big() {
            x
        } else {
            spec_swap_bytes_u16(x)
        }),
{
    x.to_be()
}

/// Whether the machine this program runs on stores its most significant byte
/// first, decided by probing what `u16::to_be` does to the value one.
pub fn target_is_big_endian() -> (r: bool)
    ensures
        r == target_big(),
{
    let probe: u16 = to_be_u16(1);
    proof {
        assert(((1u16 & 0xff) << 8) | ((1u16 >> 8) & 0xff) == 0x100) by (bit_vector);
    }
    probe == 1
}

} // verus!
