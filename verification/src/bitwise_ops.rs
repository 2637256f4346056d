//! Bitwise operations for the wrapper types.
//!
//! Like the arithmetic operations these decode to native order, combine the
//! decoded values, and re-encode the result, so they agree with the native
//! operators on the decoded values even though the raw patterns are stored
//! in a declared order.

use vstd::prelude::*;
use crate::specific_endian::BigEndian;
use crate::specific_endian::LittleEndian;
use crate::specific_endian::SpecificEndian;
use vstd::std_specs::ops::BitAndSpec;
use vstd::std_specs::ops::BitAndSpecImpl;
use vstd::std_specs::ops::BitOrSpec;
use vstd::std_specs::ops::BitOrSpecImpl;
use vstd::std_specs::ops::BitXorSpec;
use vstd::std_specs::ops::BitXorSpecImpl;

verus! {

impl<V, B> core::ops::BitAnd for BigEndian<V, B> where
    V: core::ops::BitAnd<Output = V> + SpecificEndian<B>,
    B: Copy,
 {
    type Output = Self;

    fn bitand(self, other: Self) -> (r: Self) {
        Self::from(self.to_native().bitand(other.to_native()))
    }
}

impl<V, B> BitAndSpecImpl for BigEndian<V, B> where
    V: core::ops::BitAnd<Output = V> + SpecificEndian<B>,
    B: Copy,
 {
    open spec fn obeys_bitand_spec() -> bool {
        <V as BitAndSpec>::obeys_bitand_spec()
    }

    open spec fn bitand_req(self, rhs: Self) -> bool {
        self.spec_native().bitand_req(rhs.spec_native())
    }

    open spec fn bitand_spec(self, rhs: Self) -> Self {
        Self::spec_from_native(self.spec_native().bitand_spec(rhs.spec_native()))
    }
}

impl<V, B> core::ops::BitOr for BigEndian<V, B> where
    V: core::ops::BitOr<Output = V> + SpecificEndian<B>,
    B: Copy,
 {
    type Output = Self;

    fn bitor(self, other: Self) -> (r: Self) {
        Self::from(self.to_native().bitor(other.to_native()))
    }
}

impl<V, B> BitOrSpecImpl for BigEndian<V, B> where
    V: core::ops::BitOr<Output = V> + SpecificEndian<B>,
    B: Copy,
 {
    open spec fn obeys_bitor_spec() -> bool {
        <V as BitOrSpec>::obeys_bitor_spec()
    }

    open spec fn bitor_req(self, rhs: Self) -> bool {
        self.spec_native().bitor_req(rhs.spec_native())
    }

    open spec fn bitor_spec(self, rhs: Self) -> Self {
        Self::spec_from_native(self.spec_native().bitor_spec(rhs.spec_native()))
    }
}

impl<V, B> core::ops::BitXor for BigEndian<V, B> where
    V: core::ops::BitXor<Output = V> + SpecificEndian<B>,
    B: Copy,
 {
    type Output = Self;

    fn bitxor(self, other: Self) -> (r: Self) {
        Self::from(self.to_native().bitxor(other.to_native()))
    }
}

impl<V, B> BitXorSpecImpl for BigEndian<V, B> where
    V: core::ops::BitXor<Output = V> + SpecificEndian<B>,
    B: Copy,
 {
    open spec fn obeys_bitxor_spec() -> bool {
        <V as BitXorSpec>::obeys_bitxor_spec()
    }

    open spec fn bitxor_req(self, rhs: Self) -> bool {
        self.spec_native().bitxor_req(rhs.spec_native())
    }

    open spec fn bitxor_spec(self, rhs: Self) -> Self {
        Self::spec_from_native(self.spec_native().bitxor_spec(rhs.spec_native()))
    }
}

impl<V, B> core::ops::BitAnd for LittleEndian<V, B> where
    V: core::ops::BitAnd<Output = V> + SpecificEndian<B>,
    B: Copy,
 {
    type Output = Self;

    fn bitand(self, other: Self) -> (r: Self) {
        Self::from(self.to_native().bitand(other.to_native()))
    }
}

impl<V, B> BitAndSpecImpl for LittleEndian<V, B> where
    V: core::ops::BitAnd<Output = V> + SpecificEndian<B>,
    B: Copy,
 {
    open spec fn obeys_bitand_spec() -> bool {
        <V as BitAndSpec>::obeys_bitand_spec()
    }

    open spec fn bitand_req(self, rhs: Self) -> bool {
        self.spec_native().bitand_req(rhs.spec_native())
    }

    open spec fn bitand_spec(self, rhs: Self) -> Self {
        Self::spec_from_native(self.spec_native().bitand_spec(rhs.spec_native()))
    }
}

impl<V, B> core::ops::BitOr for LittleEndian<V, B> where
    V: core::ops::BitOr<Output = V> + SpecificEndian<B>,
    B: Copy,
 {
    type Output = Self;

    fn bitor(self, other: Self) -> (r: Self) {
        Self::from(self.to_native().bitor(other.to_native()))
    }
}

impl<V, B> BitOrSpecImpl for LittleEndian<V, B> where
    V: core::ops::BitOr<Output = V> + SpecificEndian<B>,
    B: Copy,
 {
    open spec fn obeys_bitor_spec() -> bool {
        <V as BitOrSpec>::obeys_bitor_spec()
    }

    open spec fn bitor_req(self, rhs: Self) -> bool {
        self.spec_native().bitor_req(rhs.spec_native())
    }

    open spec fn bitor_spec(self, rhs: Self) -> Self {
        Self::spec_from_native(self.spec_native().bitor_spec(rhs.spec_native()))
    }
}

impl<V, B> core::ops::BitXor for LittleEndian<V, B> where
    V: core::ops::BitXor<Output = V> + SpecificEndian<B>,
    B: Copy,
 {
    type Output = Self;

    fn bitxor(self, other: Self) -> (r: Self) {
        Self::from(self.to_native().bitxor(other.to_native()))
    }
}

impl<V, B> BitXorSpecImpl for LittleEndian<V, B> where
    V: core::ops::BitXor<Output = V> + SpecificEndian<B>,
    B: Copy,
 {
    open spec fn obeys_bitxor_spec() -> bool {
        <V as BitXorSpec>::obeys_bitxor_spec()
    }

    open spec fn bitxor_req(self, rhs: Self) -> bool {
        self.spec_native().bitxor_req(rhs.spec_native())
    }

    open spec fn bitxor_spec(self, rhs: Self) -> Self {
        Self::spec_from_native(self.spec_native().bitxor_spec(rhs.spec_native()))
    }
}

} // verus!
