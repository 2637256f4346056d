//! Ordering comparisons for the wrapper types.
//!
//! A comparison decodes both operands to native order and compares the
//! decoded values; the raw bit patterns never take part.

use core::cmp::Ordering;
use vstd::prelude::*;
use crate::specific_endian::BigEndian;
use crate::specific_endian::LittleEndian;
use crate::specific_endian::SpecificEndian;
use vstd::std_specs::cmp::PartialOrdSpec;
use vstd::std_specs::cmp::PartialOrdSpecImpl;

verus! {

impl<V, B> PartialOrd for BigEndian<V, B> where
    V: SpecificEndian<B> + PartialOrd,
    B: Copy,
 {
    fn partial_cmp(&self, other: &Self) -> (r: Option<Ordering>) {
        self.to_native().partial_cmp(&other.to_native())
    }
}

impl<V, B> PartialOrdSpecImpl for BigEndian<V, B> where
    V: SpecificEndian<B> + PartialOrd,
    B: Copy,
 {
    open spec fn obeys_partial_cmp_spec() -> bool {
        <V as PartialOrdSpec>::obeys_partial_cmp_spec()
    }

    open spec fn partial_cmp_spec(&self, other: &Self) -> Option<Ordering> {
        self.spec_native().partial_cmp_spec(&other.spec_native())
    }
}

impl<V, B> PartialOrd for LittleEndian<V, B> where
    V: SpecificEndian<B> + PartialOrd,
    B: Copy,
 {
    fn partial_cmp(&self, other: &Self) -> (r: Option<Ordering>) {
        self.to_native().partial_cmp(&other.to_native())
    }
}

impl<V, B> PartialOrdSpecImpl for LittleEndian<V, B> where
    V: SpecificEndian<B> + PartialOrd,
    B: Copy,
 {
    open spec fn obeys_partial_cmp_spec() -> bool {
        <V as PartialOrdSpec>::obeys_partial_cmp_spec()
    }

    open spec fn partial_cmp_spec(&self, other: &Self) -> Option<Ordering> {
        self.spec_native().partial_cmp_spec(&other.spec_native())
    }
}

} // verus!
