//! Conversions from a wrapper back to the native primitive type.
//!
//! Rust's coherence rules keep a generic conversion into an arbitrary value
//! type out of reach, so each built-in type gets its own pair: decoding a
//! wrapper gives exactly the wrapper's decoded native value.

use vstd::prelude::*;
use crate::specific_endian::BigEndian;
use crate::specific_endian::LittleEndian;
use vstd::std_specs::convert::FromSpecImpl;

verus! {

impl From<BigEndian<bool, bool>> for bool {
    fn from(v: BigEndian<bool, bool>) -> (r: bool) {
        v.to_native()
    }
}

impl FromSpecImpl<BigEndian<bool, bool>> for bool {
    open spec fn obeys_from_spec() -> bool {
        true
    }

    open spec fn from_spec(v: BigEndian<bool, bool>) -> bool {
        v.spec_native()
    }
}

impl From<LittleEndian<bool, bool>> for bool {
    fn from(v: LittleEndian<bool, bool>) -> (r: bool) {
        v.to_native()
    }
}

impl FromSpecImpl<LittleEndian<bool, bool>> for bool {
    open spec fn obeys_from_spec() -> bool {
        true
    }

    open spec fn from_spec(v: LittleEndian<bool, bool>) -> bool {
        v.spec_native()
    }
}

impl From<BigEndian<u8, u8>> for u8 {
    fn from(v: BigEndian<u8, u8>) -> (r: u8) {
        v.to_native()
    }
}

impl FromSpecImpl<BigEndian<u8, u8>> for u8 {
    open spec fn obeys_from_spec() -> bool {
        true
    }

    open spec fn from_spec(v: BigEndian<u8, u8>) -> u8 {
        v.spec_native()
    }
}

impl From<LittleEndian<u8, u8>> for u8 {
    fn from(v: LittleEndian<u8, u8>) -> (r: u8) {
        v.to_native()
    }
}

impl FromSpecImpl<LittleEndian<u8, u8>> for u8 {
    open spec fn obeys_from_spec() -> bool {
        true
    }

    open spec fn from_spec(v: LittleEndian<u8, u8>) -> u8 {
        v.spec_native()
    }
}

impl From<BigEndian<i8, i8>> for i8 {
    fn from(v: BigEndian<i8, i8>) -> (r: i8) {
        v.to_native()
    }
}

impl FromSpecImpl<BigEndian<i8, i8>> for i8 {
    open spec fn obeys_from_spec() -> bool {
        true
    }

    open spec fn from_spec(v: BigEndian<i8, i8>) -> i8 {
        v.spec_native()
    }
}

impl From<LittleEndian<i8, i8>> for i8 {
    fn from(v: LittleEndian<i8, i8>) -> (r: i8) {
        v.to_native()
    }
}

impl FromSpecImpl<LittleEndian<i8, i8>> for i8 {
    open spec fn obeys_from_spec() -> bool {
        true
    }

    open spec fn from_spec(v: LittleEndian<i8, i8>) -> i8 {
        v.spec_native()
    }
}

impl From<BigEndian<u16, u16>> for u16 {
    fn from(v: BigEndian<u16, u16>) -> (r: u16) {
        v.to_native()
    }
}

impl FromSpecImpl<BigEndian<u16, u16>> for u16 {
    open spec fn obeys_from_spec() -> bool {
        true
    }

    open spec fn from_spec(v: BigEndian<u16, u16>) -> u16 {
        v.spec_native()
    }
}

impl From<LittleEndian<u16, u16>> for u16 {
    fn from(v: LittleEndian<u16, u16>) -> (r: u16) {
        v.to_native()
    }
}

impl FromSpecImpl<LittleEndian<u16, u16>> for u16 {
    open spec fn obeys_from_spec() -> bool {
        true
    }

    open spec fn from_spec(v: LittleEndian<u16, u16>) -> u16 {
        v.spec_native()
    }
}

impl From<BigEndian<i16, i16>> for i16 {
    fn from(v: BigEndian<i16, i16>) -> (r: i16) {
        v.to_native()
    }
}

impl FromSpecImpl<BigEndian<i16, i16>> for i16 {
    open spec fn obeys_from_spec() -> bool {
        true
    }

    open spec fn from_spec(v: BigEndian<i16, i16>) -> i16 {
        v.spec_native()
    }
}

impl From<LittleEndian<i16, i16>> for i16 {
    fn from(v: LittleEndian<i16, i16>) -> (r: i16) {
        v.to_native()
    }
}

impl FromSpecImpl<LittleEndian<i16, i16>> for i16 {
    open spec fn obeys_from_spec() -> bool {
        true
    }

    open spec fn from_spec(v: LittleEndian<i16, i16>) -> i16 {
        v.spec_native()
    }
}

impl From<BigEndian<u32, u32>> for u32 {
    fn from(v: BigEndian<u32, u32>) -> (r: u32) {
        v.to_native()
    }
}

impl FromSpecImpl<BigEndian<u32, u32>> for u32 {
    open spec fn obeys_from_spec() -> bool {
        true
    }

    open spec fn from_spec(v: BigEndian<u32, u32>) -> u32 {
        v.spec_native()
    }
}

impl From<LittleEndian<u32, u32>> for u32 {
    fn from(v: LittleEndian<u32, u32>) -> (r: u32) {
        v.to_native()
    }
}

impl FromSpecImpl<LittleEndian<u32, u32>> for u32 {
    open spec fn obeys_from_spec() -> bool {
        true
    }

    open spec fn from_spec(v: LittleEndian<u32, u32>) -> u32 {
        v.spec_native()
    }
}

impl From<BigEndian<i32, i32>> for i32 {
    fn from(v: BigEndian<i32, i32>) -> (r: i32) {
        v.to_native()
    }
}

impl FromSpecImpl<BigEndian<i32, i32>> for i32 {
    open spec fn obeys_from_spec() -> bool {
        true
    }

    open spec fn from_spec(v: BigEndian<i32, i32>) -> i32 {
        v.spec_native()
    }
}

impl From<LittleEndian<i32, i32>> for i32 {
    fn from(v: LittleEndian<i32, i32>) -> (r: i32) {
        v.to_native()
    }
}

impl FromSpecImpl<LittleEndian<i32, i32>> for i32 {
    open spec fn obeys_from_spec() -> bool {
        true
    }

    open spec fn from_spec(v: LittleEndian<i32, i32>) -> i32 {
        v.spec_native()
    }
}

impl From<BigEndian<u64, u64>> for u64 {
    fn from(v: BigEndian<u64, u64>) -> (r: u64) {
        v.to_native()
    }
}

impl FromSpecImpl<BigEndian<u64, u64>> for u64 {
    open spec fn obeys_from_spec() -> bool {
        true
    }

    open spec fn from_spec(v: BigEndian<u64, u64>) -> u64 {
        v.spec_native()
    }
}

impl From<LittleEndian<u64, u64>> for u64 {
    fn from(v: LittleEndian<u64, u64>) -> (r: u64) {
        v.to_native()
    }
}

impl FromSpecImpl<LittleEndian<u64, u64>> for u64 {
    open spec fn obeys_from_spec() -> bool {
        true
    }

    open spec fn from_spec(v: LittleEndian<u64, u64>) -> u64 {
        v.spec_native()
    }
}

impl From<BigEndian<i64, i64>> for i64 {
    fn from(v: BigEndian<i64, i64>) -> (r: i64) {
        v.to_native()
    }
}

impl FromSpecImpl<BigEndian<i64, i64>> for i64 {
    open spec fn obeys_from_spec() -> bool {
        true
    }

    open spec fn from_spec(v: BigEndian<i64, i64>) -> i64 {
        v.spec_native()
    }
}

impl From<LittleEndian<i64, i64>> for i64 {
    fn from(v: LittleEndian<i64, i64>) -> (r: i64) {
        v.to_native()
    }
}

impl FromSpecImpl<LittleEndian<i64, i64>> for i64 {
    open spec fn obeys_from_spec() -> bool {
        true
    }

    open spec fn from_spec(v: LittleEndian<i64, i64>) -> i64 {
        v.spec_native()
    }
}

impl From<BigEndian<u128, u128>> for u128 {
    fn from(v: BigEndian<u128, u128>) -> (r: u128) {
        v.to_native()
    }
}

impl FromSpecImpl<BigEndian<u128, u128>> for u128 {
    open spec fn obeys_from_spec() -> bool {
        true
    }

    open spec fn from_spec(v: BigEndian<u128, u128>) -> u128 {
        v.spec_native()
    }
}

impl From<LittleEndian<u128, u128>> for u128 {
    fn from(v: LittleEndian<u128, u128>) -> (r: u128) {
        v.to_native()
    }
}

impl FromSpecImpl<LittleEndian<u128, u128>> for u128 {
    open spec fn obeys_from_spec() -> bool {
        true
    }

    open spec fn from_spec(v: LittleEndian<u128, u128>) -> u128 {
        v.spec_native()
    }
}

impl From<BigEndian<i128, i128>> for i128 {
    fn from(v: BigEndian<i128, i128>) -> (r: i128) {
        v.to_native()
    }
}

impl FromSpecImpl<BigEndian<i128, i128>> for i128 {
    open spec fn obeys_from_spec() -> bool {
        true
    }

    open spec fn from_spec(v: BigEndian<i128, i128>) -> i128 {
        v.spec_native()
    }
}

impl From<LittleEndian<i128, i128>> for i128 {
    fn from(v: LittleEndian<i128, i128>) -> (r: i128) {
        v.to_native()
    }
}

impl FromSpecImpl<LittleEndian<i128, i128>> for i128 {
    open spec fn obeys_from_spec() -> bool {
        true
    }

    open spec fn from_spec(v: LittleEndian<i128, i128>) -> i128 {
        v.spec_native()
    }
}

impl From<BigEndian<usize, usize>> for usize {
    fn from(v: BigEndian<usize, usize>) -> (r: usize) {
        v.to_native()
    }
}

impl FromSpecImpl<BigEndian<usize, usize>> for usize {
    open spec fn obeys_from_spec() -> bool {
        true
    }

    open spec fn from_spec(v: BigEndian<usize, usize>) -> usize {
        v.spec_native()
    }
}

impl From<LittleEndian<usize, usize>> for usize {
    fn from(v: LittleEndian<usize, usize>) -> (r: usize) {
        v.to_native()
    }
}

impl FromSpecImpl<LittleEndian<usize, usize>> for usize {
    open spec fn obeys_from_spec() -> bool {
        true
    }

    open spec fn from_spec(v: LittleEndian<usize, usize>) -> usize {
        v.spec_native()
    }
}

impl From<BigEndian<isize, isize>> for isize {
    fn from(v: BigEndian<isize, isize>) -> (r: isize) {
        v.to_native()
    }
}

impl FromSpecImpl<BigEndian<isize, isize>> for isize {
    open spec fn obeys_from_spec() -> bool {
        true
    }

    open spec fn from_spec(v: BigEndian<isize, isize>) -> isize {
        v.spec_native()
    }
}

impl From<LittleEndian<isize, isize>> for isize {
    fn from(v: LittleEndian<isize, isize>) -> (r: isize) {
        v.to_native()
    }
}

impl FromSpecImpl<LittleEndian<isize, isize>> for isize {
    open spec fn obeys_from_spec() -> bool {
        true
    }

    open spec fn from_spec(v: LittleEndian<isize, isize>) -> isize {
        v.spec_native()
    }
}

} // verus!
