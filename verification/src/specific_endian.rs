//! The conversion capability and the two endian-tagged wrapper types.

use core::marker::PhantomData;
use vstd::prelude::*;
use vstd::std_specs::cmp::PartialEqSpec;
use vstd::std_specs::cmp::PartialEqSpecImpl;
use vstd::std_specs::convert::FromSpecImpl;

verus! {

/// The capability of being converted between the native byte order and a
/// declared byte order.  A value of the implementing type is encoded into a
/// bit pattern of type `B`, and decoded back.  Every implementation must
/// prove the round-trip laws: decoding an encoded value gives the value back.
///
/// Built-in integer types carry this capability out of the box; a user type
/// implements it to gain the full wrapper support.
pub trait SpecificEndian<B: Copy>: Copy + Sized {
    /// The big-endian encoding of `self`.
    spec fn spec_to_big(self) -> B;

    /// The little-endian encoding of `self`.
    spec fn spec_to_little(self) -> B;

    /// The value whose big-endian encoding is `bits`.
    spec fn spec_from_big(bits: B) -> Self;

    /// The value whose little-endian encoding is `bits`.
    spec fn spec_from_little(bits: B) -> Self;

    /// Decoding an encoded value gives the value back, in big-endian order.
    proof fn lemma_round_trip_big(self)
        ensures
            Self::spec_from_big(self.spec_to_big()) == self,
    ;

    /// Decoding an encoded value gives the value back, in little-endian order.
    proof fn lemma_round_trip_little(self)
        ensures
            Self::spec_from_little(self.spec_to_little()) == self,
    ;

    fn to_big_endian(&self) -> (r: B)
        ensures
            r == self.spec_to_big(),
    ;

    fn to_little_endian(&self) -> (r: B)
        ensures
            r == self.spec_to_little(),
    ;

    fn from_big_endian(value: B) -> (r: Self)
        ensures
            r == Self::spec_from_big(value),
    ;

    fn from_little_endian(value: B) -> (r: Self)
        ensures
            r == Self::spec_from_little(value),
    ;
}

/// A value of type `V` stored as its big-endian encoding of type `B`.
///
/// The stored bits always hold the encoding in the declared order, never a
/// partially converted value.  The one exception is `from_bits`, the raw
/// escape hatch, which stores the given bits verbatim and trusts the caller
/// that they are already correctly encoded: handing it a wrongly encoded
/// pattern silently breaks every decoded value downstream.
#[derive(Copy, Debug, Default, Hash)]
pub struct BigEndian<V: SpecificEndian<B>, B: Copy = V> {
    pub bits: B,
    pub marker: PhantomData<V>,
}

impl<V: SpecificEndian<B>, B: Copy> Clone for BigEndian<V, B> {
    fn clone(&self) -> (r: Self)
        ensures
            r == *self,
    {
        *self
    }
}

/// A value of type `V` stored as its little-endian encoding of type `B`.
///
/// The stored bits always hold the encoding in the declared order, never a
/// partially converted value.  The one exception is `from_bits`, the raw
/// escape hatch, which stores the given bits verbatim and trusts the caller
/// that they are already correctly encoded: handing it a wrongly encoded
/// pattern silently breaks every decoded value downstream.
#[derive(Copy, Debug, Default, Hash)]
pub struct LittleEndian<V: SpecificEndian<B>, B: Copy = V> {
    pub bits: B,
    pub marker: PhantomData<V>,
}

impl<V: SpecificEndian<B>, B: Copy> Clone for LittleEndian<V, B> {
    fn clone(&self) -> (r: Self)
        ensures
            r == *self,
    {
        *self
    }
}

impl<V: SpecificEndian<B>, B: Copy> BigEndian<V, B> {
    /// The stored bit pattern.
    pub open spec fn spec_bits(self) -> B {
        self.bits
    }

    /// The native value this wrapper decodes to.
    pub open spec fn spec_native(self) -> V {
        V::spec_from_big(self.bits)
    }

    /// The wrapper that encodes the native value `v`.
    pub open spec fn spec_from_native(v: V) -> Self {
        BigEndian { bits: v.spec_to_big(), marker: PhantomData }
    }

    /// Encoding a native value and decoding it again gives the value back.
    pub proof fn lemma_round_trip(v: V)
        ensures
            Self::spec_from_native(v).spec_native() == v,
    {
        v.lemma_round_trip_big();
    }

    /// Returns the raw stored bits, exactly as they would appear in a byte
    /// buffer laid out in the declared order.
    pub fn to_bits(&self) -> (r: B)
        ensures
            r == self.spec_bits(),
    {
        self.bits
    }

    /// Imports raw bits verbatim, with no encoding performed.  The caller
    /// promises that `v` already holds a big-endian encoding; nothing checks
    /// it, and a wrong pattern decodes to a silently wrong value.
    pub fn from_bits(v: B) -> (r: Self)
        ensures
            r.spec_bits() == v,
    {
        BigEndian { bits: v, marker: PhantomData }
    }

    /// Decodes the stored bits back to a native value.
    pub fn to_native(&self) -> (r: V)
        ensures
            r == self.spec_native(),
    {
        V::from_big_endian(self.bits)
    }
}

impl<V: SpecificEndian<B>, B: Copy> LittleEndian<V, B> {
    /// The stored bit pattern.
    pub open spec fn spec_bits(self) -> B {
        self.bits
    }

    /// The native value this wrapper decodes to.
    pub open spec fn spec_native(self) -> V {
        V::spec_from_little(self.bits)
    }

    /// The wrapper that encodes the native value `v`.
    pub open spec fn spec_from_native(v: V) -> Self {
        LittleEndian { bits: v.spec_to_little(), marker: PhantomData }
    }

    /// Encoding a native value and decoding it again gives the value back.
    pub proof fn lemma_round_trip(v: V)
        ensures
            Self::spec_from_native(v).spec_native() == v,
    {
        v.lemma_round_trip_little();
    }

    /// Returns the raw stored bits, exactly as they would appear in a byte
    /// buffer laid out in the declared order.
    pub fn to_bits(&self) -> (r: B)
        ensures
            r == self.spec_bits(),
    {
        self.bits
    }

    /// Imports raw bits verbatim, with no encoding performed.  The caller
    /// promises that `v` already holds a little-endian encoding; nothing
    /// checks it, and a wrong pattern decodes to a silently wrong value.
    pub fn from_bits(v: B) -> (r: Self)
        ensures
            r.spec_bits() == v,
    {
        LittleEndian { bits: v, marker: PhantomData }
    }

    /// Decodes the stored bits back to a native value.
    pub fn to_native(&self) -> (r: V)
        ensures
            r == self.spec_native(),
    {
        V::from_little_endian(self.bits)
    }
}

impl<V: SpecificEndian<B>, B: Copy> From<V> for BigEndian<V, B> {
    /// Encoding construction: stores the big-endian encoding of `v`.
    fn from(v: V) -> (r: Self) {
        BigEndian { bits: v.to_big_endian(), marker: PhantomData }
    }
}

impl<V: SpecificEndian<B>, B: Copy> FromSpecImpl<V> for BigEndian<V, B> {
    open spec fn obeys_from_spec() -> bool {
        true
    }

    open spec fn from_spec(v: V) -> Self {
        Self::spec_from_native(v)
    }
}

impl<V: SpecificEndian<B>, B: Copy> From<V> for LittleEndian<V, B> {
    /// Encoding construction: stores the little-endian encoding of `v`.
    fn from(v: V) -> (r: Self) {
        LittleEndian { bits: v.to_little_endian(), marker: PhantomData }
    }
}

impl<V: SpecificEndian<B>, B: Copy> FromSpecImpl<V> for LittleEndian<V, B> {
    open spec fn obeys_from_spec() -> bool {
        true
    }

    open spec fn from_spec(v: V) -> Self {
        Self::spec_from_native(v)
    }
}

impl<V: SpecificEndian<B>, B: Copy> From<LittleEndian<V, B>> for BigEndian<V, B> {
    /// Cross-tag conversion: decodes to native order, then re-encodes in
    /// big-endian order.  The decoded value is unchanged.
    fn from(v: LittleEndian<V, B>) -> (r: Self) {
        let native = v.to_native();
        BigEndian { bits: native.to_big_endian(), marker: PhantomData }
    }
}

impl<V: SpecificEndian<B>, B: Copy> FromSpecImpl<LittleEndian<V, B>> for BigEndian<V, B> {
    open spec fn obeys_from_spec() -> bool {
        true
    }

    open spec fn from_spec(v: LittleEndian<V, B>) -> Self {
        Self::spec_from_native(v.spec_native())
    }
}

impl<V: SpecificEndian<B>, B: Copy> From<BigEndian<V, B>> for LittleEndian<V, B> {
    /// Cross-tag conversion: decodes to native order, then re-encodes in
    /// little-endian order.  The decoded value is unchanged.
    fn from(v: BigEndian<V, B>) -> (r: Self) {
        let native = v.to_native();
        LittleEndian { bits: native.to_little_endian(), marker: PhantomData }
    }
}

impl<V: SpecificEndian<B>, B: Copy> FromSpecImpl<BigEndian<V, B>> for LittleEndian<V, B> {
    open spec fn obeys_from_spec() -> bool {
        true
    }

    open spec fn from_spec(v: BigEndian<V, B>) -> Self {
        Self::spec_from_native(v.spec_native())
    }
}

impl<V: SpecificEndian<B> + PartialEq, B: Copy> PartialEq for BigEndian<V, B> {
    /// Two wrappers are equal exactly when their decoded values are equal,
    /// whatever their raw bits.
    fn eq(&self, other: &Self) -> (r: bool) {
        self.to_native().eq(&other.to_native())
    }
}

impl<V: SpecificEndian<B> + PartialEq, B: Copy> PartialEqSpecImpl for BigEndian<V, B> {
    open spec fn obeys_eq_spec() -> bool {
        <V as PartialEqSpec>::obeys_eq_spec()
    }

    open spec fn eq_spec(&self, other: &Self) -> bool {
        self.spec_native().eq_spec(&other.spec_native())
    }
}

impl<V: SpecificEndian<B> + Eq, B: Copy> Eq for BigEndian<V, B> {

}

impl<V: SpecificEndian<B> + PartialEq, B: Copy> PartialEq for LittleEndian<V, B> {
    /// Two wrappers are equal exactly when their decoded values are equal,
    /// whatever their raw bits.
    fn eq(&self, other: &Self) -> (r: bool) {
        self.to_native().eq(&other.to_native())
    }
}

impl<V: SpecificEndian<B> + PartialEq, B: Copy> PartialEqSpecImpl for LittleEndian<V, B> {
    open spec fn obeys_eq_spec() -> bool {
        <V as PartialEqSpec>::obeys_eq_spec()
    }

    open spec fn eq_spec(&self, other: &Self) -> bool {
        self.spec_native().eq_spec(&other.spec_native())
    }
}

impl<V: SpecificEndian<B> + Eq, B: Copy> Eq for LittleEndian<V, B> {

}

} // verus!
