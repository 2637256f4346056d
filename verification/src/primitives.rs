//! The flat registry that hands each built-in integer type, and `bool`, its
//! conversion capability.
//!
//! Single-byte types are their own encoding in either order.  Wider integers
//! are swapped exactly when the declared order differs from the target's
//! order, so on a matching target encoding and decoding are the identity.

use vstd::prelude::*;
use crate::byte_order::lemma_swap_bytes_i128_involution;
use crate::byte_order::lemma_swap_bytes_isize_involution;
use crate::byte_order::lemma_swap_bytes_usize_involution;
use crate::byte_order::spec_swap_bytes_isize;
use crate::byte_order::spec_swap_bytes_usize;
use crate::byte_order::swap_bytes_isize;
use crate::byte_order::swap_bytes_usize;
use crate::byte_order::lemma_swap_bytes_i16_involution;
use crate::byte_order::lemma_swap_bytes_i32_involution;
use crate::byte_order::lemma_swap_bytes_i64_involution;
use crate::byte_order::lemma_swap_bytes_u128_involution;
use crate::byte_order::lemma_swap_bytes_u16_involution;
use crate::byte_order::lemma_swap_bytes_u32_involution;
use crate::byte_order::lemma_swap_bytes_u64_involution;
use crate::byte_order::spec_swap_bytes_i128;
use crate::byte_order::spec_swap_bytes_i16;
use crate::byte_order::spec_swap_bytes_i32;
use crate::byte_order::spec_swap_bytes_i64;
use crate::byte_order::spec_swap_bytes_u128;
use crate::byte_order::spec_swap_bytes_u16;
use crate::byte_order::spec_swap_bytes_u32;
use crate::byte_order::spec_swap_bytes_u64;
use crate::byte_order::swap_bytes_i128;
use crate::byte_order::swap_bytes_i16;
use crate::byte_order::swap_bytes_i32;
use crate::byte_order::swap_bytes_i64;
use crate::byte_order::swap_bytes_u128;
use crate::byte_order::swap_bytes_u16;
use crate::byte_order::swap_bytes_u32;
use crate::byte_order::swap_bytes_u64;
use crate::byte_order::target_big;
use crate::byte_order::target_is_big_endian;
use crate::specific_endian::SpecificEndian;

verus! {

impl SpecificEndian<bool> for bool {
    open spec fn spec_to_big(self) -> bool {
        self
    }

    open spec fn spec_to_little(self) -> bool {
        self
    }

    open spec fn spec_from_big(bits: bool) -> bool {
        bits
    }

    open spec fn spec_from_little(bits: bool) -> bool {
        bits
    }

    proof fn lemma_round_trip_big(self) {
    }

    proof fn lemma_round_trip_little(self) {
    }

    fn to_big_endian(&self) -> (r: bool) {
        *self
    }

    fn to_little_endian(&self) -> (r: bool) {
        *self
    }

    fn from_big_endian(value: bool) -> (r: bool) {
        value
    }

    fn from_little_endian(value: bool) -> (r: bool) {
        value
    }
}

impl SpecificEndian<u8> for u8 {
    open spec fn spec_to_big(self) -> u8 {
        self
    }

    open spec fn spec_to_little(self) -> u8 {
        self
    }

    open spec fn spec_from_big(bits: u8) -> u8 {
        bits
    }

    open spec fn spec_from_little(bits: u8) -> u8 {
        bits
    }

    proof fn lemma_round_trip_big(self) {
    }

    proof fn lemma_round_trip_little(self) {
    }

    fn to_big_endian(&self) -> (r: u8) {
        *self
    }

    fn to_little_endian(&self) -> (r: u8) {
        *self
    }

    fn from_big_endian(value: u8) -> (r: u8) {
        value
    }

    fn from_little_endian(value: u8) -> (r: u8) {
        value
    }
}

impl SpecificEndian<i8> for i8 {
    open spec fn spec_to_big(self) -> i8 {
        self
    }

    open spec fn spec_to_little(self) -> i8 {
        self
    }

    open spec fn spec_from_big(bits: i8) -> i8 {
        bits
    }

    open spec fn spec_from_little(bits: i8) -> i8 {
        bits
    }

    proof fn lemma_round_trip_big(self) {
    }

    proof fn lemma_round_trip_little(self) {
    }

    fn to_big_endian(&self) -> (r: i8) {
        *self
    }

    fn to_little_endian(&self) -> (r: i8) {
        *self
    }

    fn from_big_endian(value: i8) -> (r: i8) {
        value
    }

    fn from_little_endian(value: i8) -> (r: i8) {
        value
    }
}

impl SpecificEndian<u16> for u16 {
    open spec fn spec_to_big(self) -> u16 {
        if target_big() {
            self
        } else {
            spec_swap_bytes_u16(self)
        }
    }

    open spec fn spec_to_little(self) -> u16 {
        if target_big() {
            spec_swap_bytes_u16(self)
        } else {
            self
        }
    }

    open spec fn spec_from_big(bits: u16) -> u16 {
        if target_big() {
            bits
        } else {
            spec_swap_bytes_u16(bits)
        }
    }

    open spec fn spec_from_little(bits: u16) -> u16 {
        if target_big() {
            spec_swap_bytes_u16(bits)
        } else {
            bits
        }
    }

    proof fn lemma_round_trip_big(self) {
        lemma_swap_bytes_u16_involution(self);
    }

    proof fn lemma_round_trip_little(self) {
        lemma_swap_bytes_u16_involution(self);
    }

    fn to_big_endian(&self) -> (r: u16) {
        if target_is_big_endian() {
            *self
        } else {
            swap_bytes_u16(*self)
        }
    }

    fn to_little_endian(&self) -> (r: u16) {
        if target_is_big_endian() {
            swap_bytes_u16(*self)
        } else {
            *self
        }
    }

    fn from_big_endian(value: u16) -> (r: u16) {
        if target_is_big_endian() {
            value
        } else {
            swap_bytes_u16(value)
        }
    }

    fn from_little_endian(value: u16) -> (r: u16) {
        if target_is_big_endian() {
            swap_bytes_u16(value)
        } else {
            value
        }
    }
}

impl SpecificEndian<i16> for i16 {
    open spec fn spec_to_big(self) -> i16 {
        if target_big() {
            self
        } else {
            spec_swap_bytes_i16(self)
        }
    }

    open spec fn spec_to_little(self) -> i16 {
        if target_big() {
            spec_swap_bytes_i16(self)
        } else {
            self
        }
    }

    open spec fn spec_from_big(bits: i16) -> i16 {
        if target_big() {
            bits
        } else {
            spec_swap_bytes_i16(bits)
        }
    }

    open spec fn spec_from_little(bits: i16) -> i16 {
        if target_big() {
            spec_swap_bytes_i16(bits)
        } else {
            bits
        }
    }

    proof fn lemma_round_trip_big(self) {
        lemma_swap_bytes_i16_involution(self);
    }

    proof fn lemma_round_trip_little(self) {
        lemma_swap_bytes_i16_involution(self);
    }

    fn to_big_endian(&self) -> (r: i16) {
        if target_is_big_endian() {
            *self
        } else {
            swap_bytes_i16(*self)
        }
    }

    fn to_little_endian(&self) -> (r: i16) {
        if target_is_big_endian() {
            swap_bytes_i16(*self)
        } else {
            *self
        }
    }

    fn from_big_endian(value: i16) -> (r: i16) {
        if target_is_big_endian() {
            value
        } else {
            swap_bytes_i16(value)
        }
    }

    fn from_little_endian(value: i16) -> (r: i16) {
        if target_is_big_endian() {
            swap_bytes_i16(value)
        } else {
            value
        }
    }
}

impl SpecificEndian<u32> for u32 {
    open spec fn spec_to_big(self) -> u32 {
        if target_big() {
            self
        } else {
            spec_swap_bytes_u32(self)
        }
    }

    open spec fn spec_to_little(self) -> u32 {
        if target_big() {
            spec_swap_bytes_u32(self)
        } else {
            self
        }
    }

    open spec fn spec_from_big(bits: u32) -> u32 {
        if target_big() {
            bits
        } else {
            spec_swap_bytes_u32(bits)
        }
    }

    open spec fn spec_from_little(bits: u32) -> u32 {
        if target_big() {
            spec_swap_bytes_u32(bits)
        } else {
            bits
        }
    }

    proof fn lemma_round_trip_big(self) {
        lemma_swap_bytes_u32_involution(self);
    }

    proof fn lemma_round_trip_little(self) {
        lemma_swap_bytes_u32_involution(self);
    }

    fn to_big_endian(&self) -> (r: u32) {
        if target_is_big_endian() {
            *self
        } else {
            swap_bytes_u32(*self)
        }
    }

    fn to_little_endian(&self) -> (r: u32) {
        if target_is_big_endian() {
            swap_bytes_u32(*self)
        } else {
            *self
        }
    }

    fn from_big_endian(value: u32) -> (r: u32) {
        if target_is_big_endian() {
            value
        } else {
            swap_bytes_u32(value)
        }
    }

    fn from_little_endian(value: u32) -> (r: u32) {
        if target_is_big_endian() {
            swap_bytes_u32(value)
        } else {
            value
        }
    }
}

impl SpecificEndian<i32> for i32 {
    open spec fn spec_to_big(self) -> i32 {
        if target_big() {
            self
        } else {
            spec_swap_bytes_i32(self)
        }
    }

    open spec fn spec_to_little(self) -> i32 {
        if target_big() {
            spec_swap_bytes_i32(self)
        } else {
            self
        }
    }

    open spec fn spec_from_big(bits: i32) -> i32 {
        if target_big() {
            bits
        } else {
            spec_swap_bytes_i32(bits)
        }
    }

    open spec fn spec_from_little(bits: i32) -> i32 {
        if target_big() {
            spec_swap_bytes_i32(bits)
        } else {
            bits
        }
    }

    proof fn lemma_round_trip_big(self) {
        lemma_swap_bytes_i32_involution(self);
    }

    proof fn lemma_round_trip_little(self) {
        lemma_swap_bytes_i32_involution(self);
    }

    fn to_big_endian(&self) -> (r: i32) {
        if target_is_big_endian() {
            *self
        } else {
            swap_bytes_i32(*self)
        }
    }

    fn to_little_endian(&self) -> (r: i32) {
        if target_is_big_endian() {
            swap_bytes_i32(*self)
        } else {
            *self
        }
    }

    fn from_big_endian(value: i32) -> (r: i32) {
        if target_is_big_endian() {
            value
        } else {
            swap_bytes_i32(value)
        }
    }

    fn from_little_endian(value: i32) -> (r: i32) {
        if target_is_big_endian() {
            swap_bytes_i32(value)
        } else {
            value
        }
    }
}

impl SpecificEndian<u64> for u64 {
    open spec fn spec_to_big(self) -> u64 {
        if target_big() {
            self
        } else {
            spec_swap_bytes_u64(self)
        }
    }

    open spec fn spec_to_little(self) -> u64 {
        if target_big() {
            spec_swap_bytes_u64(self)
        } else {
            self
        }
    }

    open spec fn spec_from_big(bits: u64) -> u64 {
        if target_big() {
            bits
        } else {
            spec_swap_bytes_u64(bits)
        }
    }

    open spec fn spec_from_little(bits: u64) -> u64 {
        if target_big() {
            spec_swap_bytes_u64(bits)
        } else {
            bits
        }
    }

    proof fn lemma_round_trip_big(self) {
        lemma_swap_bytes_u64_involution(self);
    }

    proof fn lemma_round_trip_little(self) {
        lemma_swap_bytes_u64_involution(self);
    }

    fn to_big_endian(&self) -> (r: u64) {
        if target_is_big_endian() {
            *self
        } else {
            swap_bytes_u64(*self)
        }
    }

    fn to_little_endian(&self) -> (r: u64) {
        if target_is_big_endian() {
            swap_bytes_u64(*self)
        } else {
            *self
        }
    }

    fn from_big_endian(value: u64) -> (r: u64) {
        if target_is_big_endian() {
            value
        } else {
            swap_bytes_u64(value)
        }
    }

    fn from_little_endian(value: u64) -> (r: u64) {
        if target_is_big_endian() {
            swap_bytes_u64(value)
        } else {
            value
        }
    }
}

impl SpecificEndian<i64> for i64 {
    open spec fn spec_to_big(self) -> i64 {
        if target_big() {
            self
        } else {
            spec_swap_bytes_i64(self)
        }
    }

    open spec fn spec_to_little(self) -> i64 {
        if target_big() {
            spec_swap_bytes_i64(self)
        } else {
            self
        }
    }

    open spec fn spec_from_big(bits: i64) -> i64 {
        if target_big() {
            bits
        } else {
            spec_swap_bytes_i64(bits)
        }
    }

    open spec fn spec_from_little(bits: i64) -> i64 {
        if target_big() {
            spec_swap_bytes_i64(bits)
        } else {
            bits
        }
    }

    proof fn lemma_round_trip_big(self) {
        lemma_swap_bytes_i64_involution(self);
    }

    proof fn lemma_round_trip_little(self) {
        lemma_swap_bytes_i64_involution(self);
    }

    fn to_big_endian(&self) -> (r: i64) {
        if target_is_big_endian() {
            *self
        } else {
            swap_bytes_i64(*self)
        }
    }

    fn to_little_endian(&self) -> (r: i64) {
        if target_is_big_endian() {
            swap_bytes_i64(*self)
        } else {
            *self
        }
    }

    fn from_big_endian(value: i64) -> (r: i64) {
        if target_is_big_endian() {
            value
        } else {
            swap_bytes_i64(value)
        }
    }

    fn from_little_endian(value: i64) -> (r: i64) {
        if target_is_big_endian() {
            swap_bytes_i64(value)
        } else {
            value
        }
    }
}

impl SpecificEndian<u128> for u128 {
    open spec fn spec_to_big(self) -> u128 {
        if target_big() {
            self
        } else {
            spec_swap_bytes_u128(self)
        }
    }

    open spec fn spec_to_little(self) -> u128 {
        if target_big() {
            spec_swap_bytes_u128(self)
        } else {
            self
        }
    }

    open spec fn spec_from_big(bits: u128) -> u128 {
        if target_big() {
            bits
        } else {
            spec_swap_bytes_u128(bits)
        }
    }

    open spec fn spec_from_little(bits: u128) -> u128 {
        if target_big() {
            spec_swap_bytes_u128(bits)
        } else {
            bits
        }
    }

    proof fn lemma_round_trip_big(self) {
        lemma_swap_bytes_u128_involution(self);
    }

    proof fn lemma_round_trip_little(self) {
        lemma_swap_bytes_u128_involution(self);
    }

    fn to_big_endian(&self) -> (r: u128) {
        if target_is_big_endian() {
            *self
        } else {
            swap_bytes_u128(*self)
        }
    }

    fn to_little_endian(&self) -> (r: u128) {
        if target_is_big_endian() {
            swap_bytes_u128(*self)
        } else {
            *self
        }
    }

    fn from_big_endian(value: u128) -> (r: u128) {
        if target_is_big_endian() {
            value
        } else {
            swap_bytes_u128(value)
        }
    }

    fn from_little_endian(value: u128) -> (r: u128) {
        if target_is_big_endian() {
            swap_bytes_u128(value)
        } else {
            value
        }
    }
}

impl SpecificEndian<i128> for i128 {
    open spec fn spec_to_big(self) -> i128 {
        if target_big() {
            self
        } else {
            spec_swap_bytes_i128(self)
        }
    }

    open spec fn spec_to_little(self) -> i128 {
        if target_big() {
            spec_swap_bytes_i128(self)
        } else {
            self
        }
    }

    open spec fn spec_from_big(bits: i128) -> i128 {
        if target_big() {
            bits
        } else {
            spec_swap_bytes_i128(bits)
        }
    }

    open spec fn spec_from_little(bits: i128) -> i128 {
        if target_big() {
            spec_swap_bytes_i128(bits)
        } else {
            bits
        }
    }

    proof fn lemma_round_trip_big(self) {
        lemma_swap_bytes_i128_involution(self);
    }

    proof fn lemma_round_trip_little(self) {
        lemma_swap_bytes_i128_involution(self);
    }

    fn to_big_endian(&self) -> (r: i128) {
        if target_is_big_endian() {
            *self
        } else {
            swap_bytes_i128(*self)
        }
    }

    fn to_little_endian(&self) -> (r: i128) {
        if target_is_big_endian() {
            swap_bytes_i128(*self)
        } else {
            *self
        }
    }

    fn from_big_endian(value: i128) -> (r: i128) {
        if target_is_big_endian() {
            value
        } else {
            swap_bytes_i128(value)
        }
    }

    fn from_little_endian(value: i128) -> (r: i128) {
        if target_is_big_endian() {
            swap_bytes_i128(value)
        } else {
            value
        }
    }
}

impl SpecificEndian<usize> for usize {
    open spec fn spec_to_big(self) -> usize {
        if target_big() {
            self
        } else {
            spec_swap_bytes_usize(self)
        }
    }

    open spec fn spec_to_little(self) -> usize {
        if target_big() {
            spec_swap_bytes_usize(self)
        } else {
            self
        }
    }

    open spec fn spec_from_big(bits: usize) -> usize {
        if target_big() {
            bits
        } else {
            spec_swap_bytes_usize(bits)
        }
    }

    open spec fn spec_from_little(bits: usize) -> usize {
        if target_big() {
            spec_swap_bytes_usize(bits)
        } else {
            bits
        }
    }

    proof fn lemma_round_trip_big(self) {
        lemma_swap_bytes_usize_involution(self);
    }

    proof fn lemma_round_trip_little(self) {
        lemma_swap_bytes_usize_involution(self);
    }

    fn to_big_endian(&self) -> (r: usize) {
        if target_is_big_endian() {
            *self
        } else {
            swap_bytes_usize(*self)
        }
    }

    fn to_little_endian(&self) -> (r: usize) {
        if target_is_big_endian() {
            swap_bytes_usize(*self)
        } else {
            *self
        }
    }

    fn from_big_endian(value: usize) -> (r: usize) {
        if target_is_big_endian() {
            value
        } else {
            swap_bytes_usize(value)
        }
    }

    fn from_little_endian(value: usize) -> (r: usize) {
        if target_is_big_endian() {
            swap_bytes_usize(value)
        } else {
            value
        }
    }
}

impl SpecificEndian<isize> for isize {
    open spec fn spec_to_big(self) -> isize {
        if target_big() {
            self
        } else {
            spec_swap_bytes_isize(self)
        }
    }

    open spec fn spec_to_little(self) -> isize {
        if target_big() {
            spec_swap_bytes_isize(self)
        } else {
            self
        }
    }

    open spec fn spec_from_big(bits: isize) -> isize {
        if target_big() {
            bits
        } else {
            spec_swap_bytes_isize(bits)
        }
    }

    open spec fn spec_from_little(bits: isize) -> isize {
        if target_big() {
            spec_swap_bytes_isize(bits)
        } else {
            bits
        }
    }

    proof fn lemma_round_trip_big(self) {
        lemma_swap_bytes_isize_involution(self);
    }

    proof fn lemma_round_trip_little(self) {
        lemma_swap_bytes_isize_involution(self);
    }

    fn to_big_endian(&self) -> (r: isize) {
        if target_is_big_endian() {
            *self
        } else {
            swap_bytes_isize(*self)
        }
    }

    fn to_little_endian(&self) -> (r: isize) {
        if target_is_big_endian() {
            swap_bytes_isize(*self)
        } else {
            *self
        }
    }

    fn from_big_endian(value: isize) -> (r: isize) {
        if target_is_big_endian() {
            value
        } else {
            swap_bytes_isize(value)
        }
    }

    fn from_little_endian(value: isize) -> (r: isize) {
        if target_is_big_endian() {
            swap_bytes_isize(value)
        } else {
            value
        }
    }
}

} // verus!
