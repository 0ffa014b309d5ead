//! Laws that relate the operations of the vector and quaternion types.

use crate::num_traits::{One, Zero};
use crate::quaternion::TQuaternion;
use crate::vector_2::TVector2;
use crate::vector_3::TVector3;
use crate::vector_4::TVector4;
use std::ops::{Add, Mul};
use vstd::prelude::*;
use vstd::std_specs::convert::FromSpec;
use vstd::std_specs::ops::{AddSpec, MulSpec};

verus! {

/// Adding `z` to any value of `T` is defined and gives that value back.
pub open spec fn is_additive_identity<T: Add<Output = T>>(z: T) -> bool {
    &&& T::obeys_add_spec()
    &&& forall|a: T| a.add_req(z) && #[trigger] a.add_spec(z) == a
}

/// Multiplying any value of `T` by `o` is defined and gives that value back.
pub open spec fn is_multiplicative_identity<T: Mul<Output = T>>(o: T) -> bool {
    &&& T::obeys_mul_spec()
    &&& forall|a: T| a.mul_req(o) && #[trigger] a.mul_spec(o) == a
}

/// The zero of each integer element type is an additive identity and its one
/// a multiplicative identity.
pub proof fn lemma_integer_identities()
    ensures
        is_additive_identity(<i8 as Zero<i8>>::spec_zero()),
        is_multiplicative_identity(<i8 as One<i8>>::spec_one()),
        is_additive_identity(<i16 as Zero<i16>>::spec_zero()),
        is_multiplicative_identity(<i16 as One<i16>>::spec_one()),
        is_additive_identity(<i32 as Zero<i32>>::spec_zero()),
        is_multiplicative_identity(<i32 as One<i32>>::spec_one()),
        is_additive_identity(<i64 as Zero<i64>>::spec_zero()),
        is_multiplicative_identity(<i64 as One<i64>>::spec_one()),
        is_additive_identity(<i128 as Zero<i128>>::spec_zero()),
        is_multiplicative_identity(<i128 as One<i128>>::spec_one()),
        is_additive_identity(<u8 as Zero<u8>>::spec_zero()),
        is_multiplicative_identity(<u8 as One<u8>>::spec_one()),
        is_additive_identity(<u16 as Zero<u16>>::spec_zero()),
        is_multiplicative_identity(<u16 as One<u16>>::spec_one()),
        is_additive_identity(<u32 as Zero<u32>>::spec_zero()),
        is_multiplicative_identity(<u32 as One<u32>>::spec_one()),
        is_additive_identity(<u64 as Zero<u64>>::spec_zero()),
        is_multiplicative_identity(<u64 as One<u64>>::spec_one()),
        is_additive_identity(<u128 as Zero<u128>>::spec_zero()),
        is_multiplicative_identity(<u128 as One<u128>>::spec_one()),
{
}

/// Adding zero to every field of a vector, or multiplying every field by one,
/// gives the same vector.
pub proof fn lemma_vector_2_identities<T>(v: TVector2<T>)
    where
        T: Zero<T> + One<T> + Add<Output = T> + Mul<Output = T> + Copy,
    requires
        is_additive_identity(T::spec_zero()),
        is_multiplicative_identity(T::spec_one()),
    ensures
        v.add_req(T::spec_zero()),
        v.add_spec(T::spec_zero()) == v,
        v.mul_req(T::spec_one()),
        v.mul_spec(T::spec_one()) == v,
{
    assert(v.x.add_spec(T::spec_zero()) == v.x);
    assert(v.y.add_spec(T::spec_zero()) == v.y);
    assert(v.x.mul_spec(T::spec_one()) == v.x);
    assert(v.y.mul_spec(T::spec_one()) == v.y);
}

/// Adding zero to every field of a vector, or multiplying every field by one,
/// gives the same vector.
pub proof fn lemma_vector_3_identities<T>(v: TVector3<T>)
    where
        T: Zero<T> + One<T> + Add<Output = T> + Mul<Output = T> + Copy,
    requires
        is_additive_identity(T::spec_zero()),
        is_multiplicative_identity(T::spec_one()),
    ensures
        v.add_req(T::spec_zero()),
        v.add_spec(T::spec_zero()) == v,
        v.mul_req(T::spec_one()),
        v.mul_spec(T::spec_one()) == v,
{
    assert(v.x.add_spec(T::spec_zero()) == v.x);
    assert(v.y.add_spec(T::spec_zero()) == v.y);
    assert(v.z.add_spec(T::spec_zero()) == v.z);
    assert(v.x.mul_spec(T::spec_one()) == v.x);
    assert(v.y.mul_spec(T::spec_one()) == v.y);
    assert(v.z.mul_spec(T::spec_one()) == v.z);
}

/// Adding zero to every field of a vector, or multiplying every field by one,
/// gives the same vector.
pub proof fn lemma_vector_4_identities<T>(v: TVector4<T>)
    where
        T: Zero<T> + One<T> + Add<Output = T> + Mul<Output = T> + Copy,
    requires
        is_additive_identity(T::spec_zero()),
        is_multiplicative_identity(T::spec_one()),
    ensures
        v.add_req(T::spec_zero()),
        v.add_spec(T::spec_zero()) == v,
        v.mul_req(T::spec_one()),
        v.mul_spec(T::spec_one()) == v,
{
    assert(v.x.add_spec(T::spec_zero()) == v.x);
    assert(v.y.add_spec(T::spec_zero()) == v.y);
    assert(v.z.add_spec(T::spec_zero()) == v.z);
    assert(v.w.add_spec(T::spec_zero()) == v.w);
    assert(v.x.mul_spec(T::spec_one()) == v.x);
    assert(v.y.mul_spec(T::spec_one()) == v.y);
    assert(v.z.mul_spec(T::spec_one()) == v.z);
    assert(v.w.mul_spec(T::spec_one()) == v.w);
}

/// Truncating a vector keeps its leading fields, so widening a vector and
/// truncating it back to its own length gives the same vector.
pub proof fn lemma_widen_then_truncate<T: Zero<T> + Copy>(a: T, b: T, c: T, d: T)
    ensures
        TVector2::spec_from_vector_3(TVector3 { x: a, y: b, z: c }) == (TVector2 { x: a, y: b }),
        TVector2::spec_from_vector_4(TVector4 { x: a, y: b, z: c, w: d }) == (TVector2 {
            x: a,
            y: b,
        }),
        TVector3::spec_from_vector_4(TVector4 { x: a, y: b, z: c, w: d }) == (TVector3 {
            x: a,
            y: b,
            z: c,
        }),
        TVector2::spec_from_vector_3(TVector3::from_spec(TVector2 { x: a, y: b })) == (TVector2 {
            x: a,
            y: b,
        }),
        TVector2::spec_from_vector_4(TVector4::from_spec(TVector2 { x: a, y: b })) == (TVector2 {
            x: a,
            y: b,
        }),
        TVector3::spec_from_vector_4(
            TVector4::from_spec(TVector3 { x: a, y: b, z: c }),
        ) == (TVector3 {
            x: a,
            y: b,
            z: c,
        }),
{
}

/// Widening a vector keeps its fields and pads the missing trailing fields
/// with zero.
pub proof fn lemma_widening_pads_with_zero<T: Zero<T> + Copy>(a: T, b: T, c: T)
    ensures
        TVector3::from_spec(TVector2 { x: a, y: b }) == (TVector3 {
            x: a,
            y: b,
            z: T::spec_zero(),
        }),
        TVector4::from_spec(TVector2 { x: a, y: b }) == (TVector4 {
            x: a,
            y: b,
            z: T::spec_zero(),
            w: T::spec_zero(),
        }),
        TVector4::from_spec(TVector3 { x: a, y: b, z: c }) == (TVector4 {
            x: a,
            y: b,
            z: c,
            w: T::spec_zero(),
        }),
{
}

/// The identity quaternion has a `w` of one and zero imaginary parts, and as
/// a four-field vector it is zero but for a last field of one.
pub proof fn lemma_identity_quaternion<T: Zero<T> + One<T> + Copy>()
    ensures
        TQuaternion::<T>::spec_identity() == (TQuaternion {
            w: T::spec_one(),
            x: T::spec_zero(),
            y: T::spec_zero(),
            z: T::spec_zero(),
        }),
        TVector4::spec_from_quaternion(TQuaternion::<T>::spec_identity()) == (TVector4 {
            x: T::spec_zero(),
            y: T::spec_zero(),
            z: T::spec_zero(),
            w: T::spec_one(),
        }),
{
}

} // verus!
