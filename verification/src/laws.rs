//! The laws of the library, each stated as a public proof function.
//!
//! The wrapper operations promise their behaviour pointwise in their
//! `ensures` clauses; the lemmas here put the headline guarantees in one
//! place: round-tripping, the raw layout on either kind of target, semantic
//! equality, operator correctness and cross-tag conversion.

use vstd::prelude::*;
use crate::byte_order::target_big;
use crate::specific_endian::BigEndian;
use crate::specific_endian::LittleEndian;
use crate::specific_endian::SpecificEndian;
use vstd::std_specs::cmp::PartialEqSpec;
use vstd::std_specs::convert::FromSpec;
use vstd::std_specs::ops::AddSpec;
use vstd::std_specs::ops::DivSpec;
use vstd::std_specs::ops::MulSpec;
use vstd::std_specs::ops::NegSpec;
use vstd::std_specs::ops::SubSpec;

verus! {

/// Round-trip law: encoding any native value and decoding it again gives
/// the value back, for either declared byte order.
pub proof fn lemma_round_trip<V: SpecificEndian<B>, B: Copy>(v: V)
    ensures
        BigEndian::<V, B>::spec_from_native(v).spec_native() == v,
        LittleEndian::<V, B>::spec_from_native(v).spec_native() == v,
{
    v.lemma_round_trip_big();
    v.lemma_round_trip_little();
}

/// Platform-order law: the big-endian wrapper of the `u64` value `0xfe`
/// stores the bits unchanged on a big-endian target and byte-swapped, that
/// is as `0xfe00000000000000`, on a little-endian target; the little-endian
/// wrapper stores the mirror image.
pub proof fn lemma_platform_order()
    ensures
        BigEndian::<u64, u64>::spec_from_native(0xfeu64).spec_bits() == (if target_big() {
            0xfeu64
        } else {
            0xfe00000000000000u64
        }),
        LittleEndian::<u64, u64>::spec_from_native(0xfeu64).spec_bits() == (if target_big() {
            0xfe00000000000000u64
        } else {
            0xfeu64
        }),
{
    let x: u64 = 0xfe;
    assert(((x & 0xff) << 56) | (((x >> 8) & 0xff) << 48) | (((x >> 16) & 0xff) << 40) | (((x
        >> 24) & 0xff) << 32) | (((x >> 32) & 0xff) << 24) | (((x >> 40) & 0xff) << 16) | (((x
        >> 48) & 0xff) << 8) | ((x >> 56) & 0xff) == 0xfe00000000000000) by (bit_vector)
        requires
            x == 0xfe,
    ;
}

/// Semantic-equality law: wrappers of the same tag compare equal exactly as
/// their decoded native values compare equal; the raw bit patterns never
/// take part in the comparison.
pub proof fn lemma_semantic_equality<V: SpecificEndian<B> + PartialEq, B: Copy>(
    a: BigEndian<V, B>,
    b: BigEndian<V, B>,
    c: LittleEndian<V, B>,
    d: LittleEndian<V, B>,
)
    ensures
        a.eq_spec(&b) == a.spec_native().eq_spec(&b.spec_native()),
        c.eq_spec(&d) == c.spec_native().eq_spec(&d.spec_native()),
{
}

/// Semantic equality at an integer instance: two big-endian `u64` wrappers
/// are equal exactly when they decode to the same number.
pub proof fn lemma_semantic_equality_u64(a: BigEndian<u64, u64>, b: BigEndian<u64, u64>)
    ensures
        a.eq_spec(&b) <==> a.spec_native() == b.spec_native(),
{
}

/// Operator-correctness law for addition: the sum of two wrappers decodes
/// to the native sum of their decoded values.
pub proof fn lemma_add_correct<V, B>(a: BigEndian<V, B>, b: BigEndian<V, B>) where
    V: core::ops::Add<Output = V> + SpecificEndian<B>,
    B: Copy,

    ensures
        a.add_spec(b).spec_native() == a.spec_native().add_spec(b.spec_native()),
{
    BigEndian::<V, B>::lemma_round_trip(a.spec_native().add_spec(b.spec_native()));
}

/// Operator-correctness law for subtraction.
pub proof fn lemma_sub_correct<V, B>(a: BigEndian<V, B>, b: BigEndian<V, B>) where
    V: core::ops::Sub<Output = V> + SpecificEndian<B>,
    B: Copy,

    ensures
        a.sub_spec(b).spec_native() == a.spec_native().sub_spec(b.spec_native()),
{
    BigEndian::<V, B>::lemma_round_trip(a.spec_native().sub_spec(b.spec_native()));
}

/// Operator-correctness law for multiplication.
pub proof fn lemma_mul_correct<V, B>(a: BigEndian<V, B>, b: BigEndian<V, B>) where
    V: core::ops::Mul<Output = V> + SpecificEndian<B>,
    B: Copy,

    ensures
        a.mul_spec(b).spec_native() == a.spec_native().mul_spec(b.spec_native()),
{
    BigEndian::<V, B>::lemma_round_trip(a.spec_native().mul_spec(b.spec_native()));
}

/// Operator-correctness law for division.
pub proof fn lemma_div_correct<V, B>(a: BigEndian<V, B>, b: BigEndian<V, B>) where
    V: core::ops::Div<Output = V> + SpecificEndian<B>,
    B: Copy,

    ensures
        a.div_spec(b).spec_native() == a.spec_native().div_spec(b.spec_native()),
{
    BigEndian::<V, B>::lemma_round_trip(a.spec_native().div_spec(b.spec_native()));
}

/// Operator-correctness law for negation.
pub proof fn lemma_neg_correct<V, B>(a: BigEndian<V, B>) where
    V: core::ops::Neg<Output = V> + SpecificEndian<B>,
    B: Copy,

    ensures
        a.neg_spec().spec_native() == a.spec_native().neg_spec(),
{
    BigEndian::<V, B>::lemma_round_trip(a.spec_native().neg_spec());
}

/// Operator-correctness law for the little-endian wrapper's addition.
pub proof fn lemma_add_correct_little<V, B>(a: LittleEndian<V, B>, b: LittleEndian<V, B>) where
    V: core::ops::Add<Output = V> + SpecificEndian<B>,
    B: Copy,

    ensures
        a.add_spec(b).spec_native() == a.spec_native().add_spec(b.spec_native()),
{
    LittleEndian::<V, B>::lemma_round_trip(a.spec_native().add_spec(b.spec_native()));
}

/// Operator-correctness law for the little-endian wrapper's subtraction.
pub proof fn lemma_sub_correct_little<V, B>(a: LittleEndian<V, B>, b: LittleEndian<V, B>) where
    V: core::ops::Sub<Output = V> + SpecificEndian<B>,
    B: Copy,

    ensures
        a.sub_spec(b).spec_native() == a.spec_native().sub_spec(b.spec_native()),
{
    LittleEndian::<V, B>::lemma_round_trip(a.spec_native().sub_spec(b.spec_native()));
}

/// Operator-correctness law for the little-endian wrapper's multiplication.
pub proof fn lemma_mul_correct_little<V, B>(a: LittleEndian<V, B>, b: LittleEndian<V, B>) where
    V: core::ops::Mul<Output = V> + SpecificEndian<B>,
    B: Copy,

    ensures
        a.mul_spec(b).spec_native() == a.spec_native().mul_spec(b.spec_native()),
{
    LittleEndian::<V, B>::lemma_round_trip(a.spec_native().mul_spec(b.spec_native()));
}

/// Operator-correctness law for the little-endian wrapper's division.
pub proof fn lemma_div_correct_little<V, B>(a: LittleEndian<V, B>, b: LittleEndian<V, B>) where
    V: core::ops::Div<Output = V> + SpecificEndian<B>,
    B: Copy,

    ensures
        a.div_spec(b).spec_native() == a.spec_native().div_spec(b.spec_native()),
{
    LittleEndian::<V, B>::lemma_round_trip(a.spec_native().div_spec(b.spec_native()));
}

/// Operator-correctness law for the little-endian wrapper's negation.
pub proof fn lemma_neg_correct_little<V, B>(a: LittleEndian<V, B>) where
    V: core::ops::Neg<Output = V> + SpecificEndian<B>,
    B: Copy,

    ensures
        a.neg_spec().spec_native() == a.spec_native().neg_spec(),
{
    LittleEndian::<V, B>::lemma_round_trip(a.spec_native().neg_spec());
}

/// Cross-tag law: converting a wrapper to the other tag preserves the
/// decoded native value.
pub proof fn lemma_cross_tag_preserves_native<V: SpecificEndian<B>, B: Copy>(
    be: BigEndian<V, B>,
    le: LittleEndian<V, B>,
)
    ensures
        <BigEndian<V, B> as FromSpec<LittleEndian<V, B>>>::from_spec(le).spec_native()
            == le.spec_native(),
        <LittleEndian<V, B> as FromSpec<BigEndian<V, B>>>::from_spec(be).spec_native()
            == be.spec_native(),
{
    BigEndian::<V, B>::lemma_round_trip(le.spec_native());
    LittleEndian::<V, B>::lemma_round_trip(be.spec_native());
}

/// Cross-tag arithmetic law: adding a little-endian wrapper to a big-endian
/// wrapper through an explicit tag conversion yields the wrapper of the
/// native sum of the two decoded values.
pub proof fn lemma_mixed_endian_add<V, B>(a: BigEndian<V, B>, b: LittleEndian<V, B>) where
    V: core::ops::Add<Output = V> + SpecificEndian<B>,
    B: Copy,

    ensures
        a.add_spec(<BigEndian<V, B> as FromSpec<LittleEndian<V, B>>>::from_spec(b)).spec_native()
            == a.spec_native().add_spec(b.spec_native()),
{
    lemma_cross_tag_preserves_native(a, b);
    lemma_add_correct(a, <BigEndian<V, B> as FromSpec<LittleEndian<V, B>>>::from_spec(b));
}

} // verus!
