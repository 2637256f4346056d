//! Negation for the wrapper types whose value type can be negated.
//!
//! Negation decodes to native order, negates natively, and re-encodes in
//! the declared order.

use vstd::prelude::*;
use crate::specific_endian::BigEndian;
use crate::specific_endian::LittleEndian;
use crate::specific_endian::SpecificEndian;
use vstd::std_specs::ops::NegSpec;
use vstd::std_specs::ops::NegSpecImpl;

verus! {

impl<V, B> core::ops::Neg for BigEndian<V, B> where
    V: core::ops::Neg<Output = V> + SpecificEndian<B>,
    B: Copy,
 {
    type Output = Self;

    fn neg(self) -> (r: Self) {
        Self::from(self.to_native().neg())
    }
}

impl<V, B> NegSpecImpl for BigEndian<V, B> where
    V: core::ops::Neg<Output = V> + SpecificEndian<B>,
    B: Copy,
 {
    open spec fn obeys_neg_spec() -> bool {
        <V as NegSpec>::obeys_neg_spec()
    }

    open spec fn neg_req(self) -> bool {
        self.spec_native().neg_req()
    }

    open spec fn neg_spec(self) -> Self {
        Self::spec_from_native(self.spec_native().neg_spec())
    }
}

impl<V, B> core::ops::Neg for LittleEndian<V, B> where
    V: core::ops::Neg<Output = V> + SpecificEndian<B>,
    B: Copy,
 {
    type Output = Self;

    fn neg(self) -> (r: Self) {
        Self::from(self.to_native().neg())
    }
}

impl<V, B> NegSpecImpl for LittleEndian<V, B> where
    V: core::ops::Neg<Output = V> + SpecificEndian<B>,
    B: Copy,
 {
    open spec fn obeys_neg_spec() -> bool {
        <V as NegSpec>::obeys_neg_spec()
    }

    open spec fn neg_req(self) -> bool {
        self.spec_native().neg_req()
    }

    open spec fn neg_spec(self) -> Self {
        Self::spec_from_native(self.spec_native().neg_spec())
    }
}

} // verus!
