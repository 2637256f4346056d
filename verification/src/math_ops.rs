//! Arithmetic on the wrapper types.
//!
//! Every operation follows one pattern: decode both operands to native
//! order, perform the native operation, and re-encode the result in the
//! declared order of the left operand.  The native type's own overflow
//! preconditions carry over unchanged.

use vstd::prelude::*;
use crate::specific_endian::BigEndian;
use crate::specific_endian::LittleEndian;
use crate::specific_endian::SpecificEndian;
use vstd::std_specs::ops::AddSpec;
use vstd::std_specs::ops::AddSpecImpl;
use vstd::std_specs::ops::DivSpec;
use vstd::std_specs::ops::DivSpecImpl;
use vstd::std_specs::ops::MulSpec;
use vstd::std_specs::ops::MulSpecImpl;
use vstd::std_specs::ops::SubSpec;
use vstd::std_specs::ops::SubSpecImpl;

verus! {

impl<V, B> core::ops::Add for BigEndian<V, B> where
    V: core::ops::Add<Output = V> + SpecificEndian<B>,
    B: Copy,
 {
    type Output = Self;

    fn add(self, other: Self) -> (r: Self) {
        Self::from(self.to_native().add(other.to_native()))
    }
}

impl<V, B> AddSpecImpl for BigEndian<V, B> where
    V: core::ops::Add<Output = V> + SpecificEndian<B>,
    B: Copy,
 {
    open spec fn obeys_add_spec() -> bool {
        <V as AddSpec>::obeys_add_spec()
    }

    open spec fn add_req(self, rhs: Self) -> bool {
        self.spec_native().add_req(rhs.spec_native())
    }

    open spec fn add_spec(self, rhs: Self) -> Self {
        Self::spec_from_native(self.spec_native().add_spec(rhs.spec_native()))
    }
}

impl<V, B> core::ops::Sub for BigEndian<V, B> where
    V: core::ops::Sub<Output = V> + SpecificEndian<B>,
    B: Copy,
 {
    type Output = Self;

    fn sub(self, other: Self) -> (r: Self) {
        Self::from(self.to_native().sub(other.to_native()))
    }
}

impl<V, B> SubSpecImpl for BigEndian<V, B> where
    V: core::ops::Sub<Output = V> + SpecificEndian<B>,
    B: Copy,
 {
    open spec fn obeys_sub_spec() -> bool {
        <V as SubSpec>::obeys_sub_spec()
    }

    open spec fn sub_req(self, rhs: Self) -> bool {
        self.spec_native().sub_req(rhs.spec_native())
    }

    open spec fn sub_spec(self, rhs: Self) -> Self {
        Self::spec_from_native(self.spec_native().sub_spec(rhs.spec_native()))
    }
}

impl<V, B> core::ops::Mul for BigEndian<V, B> where
    V: core::ops::Mul<Output = V> + SpecificEndian<B>,
    B: Copy,
 {
    type Output = Self;

    fn mul(self, other: Self) -> (r: Self) {
        Self::from(self.to_native().mul(other.to_native()))
    }
}

impl<V, B> MulSpecImpl for BigEndian<V, B> where
    V: core::ops::Mul<Output = V> + SpecificEndian<B>,
    B: Copy,
 {
    open spec fn obeys_mul_spec() -> bool {
        <V as MulSpec>::obeys_mul_spec()
    }

    open spec fn mul_req(self, rhs: Self) -> bool {
        self.spec_native().mul_req(rhs.spec_native())
    }

    open spec fn mul_spec(self, rhs: Self) -> Self {
        Self::spec_from_native(self.spec_native().mul_spec(rhs.spec_native()))
    }
}

impl<V, B> core::ops::Div for BigEndian<V, B> where
    V: core::ops::Div<Output = V> + SpecificEndian<B>,
    B: Copy,
 {
    type Output = Self;

    fn div(self, other: Self) -> (r: Self) {
        Self::from(self.to_native().div(other.to_native()))
    }
}

impl<V, B> DivSpecImpl for BigEndian<V, B> where
    V: core::ops::Div<Output = V> + SpecificEndian<B>,
    B: Copy,
 {
    open spec fn obeys_div_spec() -> bool {
        <V as DivSpec>::obeys_div_spec()
    }

    open spec fn div_req(self, rhs: Self) -> bool {
        self.spec_native().div_req(rhs.spec_native())
    }

    open spec fn div_spec(self, rhs: Self) -> Self {
        Self::spec_from_native(self.spec_native().div_spec(rhs.spec_native()))
    }
}

impl<V, B> core::ops::Add for LittleEndian<V, B> where
    V: core::ops::Add<Output = V> + SpecificEndian<B>,
    B: Copy,
 {
    type Output = Self;

    fn add(self, other: Self) -> (r: Self) {
        Self::from(self.to_native().add(other.to_native()))
    }
}

impl<V, B> AddSpecImpl for LittleEndian<V, B> where
    V: core::ops::Add<Output = V> + SpecificEndian<B>,
    B: Copy,
 {
    open spec fn obeys_add_spec() -> bool {
        <V as AddSpec>::obeys_add_spec()
    }

    open spec fn add_req(self, rhs: Self) -> bool {
        self.spec_native().add_req(rhs.spec_native())
    }

    open spec fn add_spec(self, rhs: Self) -> Self {
        Self::spec_from_native(self.spec_native().add_spec(rhs.spec_native()))
    }
}

impl<V, B> core::ops::Sub for LittleEndian<V, B> where
    V: core::ops::Sub<Output = V> + SpecificEndian<B>,
    B: Copy,
 {
    type Output = Self;

    fn sub(self, other: Self) -> (r: Self) {
        Self::from(self.to_native().sub(other.to_native()))
    }
}

impl<V, B> SubSpecImpl for LittleEndian<V, B> where
    V: core::ops::Sub<Output = V> + SpecificEndian<B>,
    B: Copy,
 {
    open spec fn obeys_sub_spec() -> bool {
        <V as SubSpec>::obeys_sub_spec()
    }

    open spec fn sub_req(self, rhs: Self) -> bool {
        self.spec_native().sub_req(rhs.spec_native())
    }

    open spec fn sub_spec(self, rhs: Self) -> Self {
        Self::spec_from_native(self.spec_native().sub_spec(rhs.spec_native()))
    }
}

impl<V, B> core::ops::Mul for LittleEndian<V, B> where
    V: core::ops::Mul<Output = V> + SpecificEndian<B>,
    B: Copy,
 {
    type Output = Self;

    fn mul(self, other: Self) -> (r: Self) {
        Self::from(self.to_native().mul(other.to_native()))
    }
}

impl<V, B> MulSpecImpl for LittleEndian<V, B> where
    V: core::ops::Mul<Output = V> + SpecificEndian<B>,
    B: Copy,
 {
    open spec fn obeys_mul_spec() -> bool {
        <V as MulSpec>::obeys_mul_spec()
    }

    open spec fn mul_req(self, rhs: Self) -> bool {
        self.spec_native().mul_req(rhs.spec_native())
    }

    open spec fn mul_spec(self, rhs: Self) -> Self {
        Self::spec_from_native(self.spec_native().mul_spec(rhs.spec_native()))
    }
}

impl<V, B> core::ops::Div for LittleEndian<V, B> where
    V: core::ops::Div<Output = V> + SpecificEndian<B>,
    B: Copy,
 {
    type Output = Self;

    fn div(self, other: Self) -> (r: Self) {
        Self::from(self.to_native().div(other.to_native()))
    }
}

impl<V, B> DivSpecImpl for LittleEndian<V, B> where
    V: core::ops::Div<Output = V> + SpecificEndian<B>,
    B: Copy,
 {
    open spec fn obeys_div_spec() -> bool {
        <V as DivSpec>::obeys_div_spec()
    }

    open spec fn div_req(self, rhs: Self) -> bool {
        self.spec_native().div_req(rhs.spec_native())
    }

    open spec fn div_spec(self, rhs: Self) -> Self {
        Self::spec_from_native(self.spec_native().div_spec(rhs.spec_native()))
    }
}

} // verus!
