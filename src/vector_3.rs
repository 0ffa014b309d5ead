//! Three-field vectors.

use crate::num_traits::Zero;
use crate::quaternion::TQuaternion;
use crate::saturated;
use crate::vector_2::TVector2;
use crate::vector_4::TVector4;
use std::ops::{
    Add, AddAssign, BitAnd, BitAndAssign, BitOr, BitOrAssign, BitXor, BitXorAssign, Div, DivAssign,
    Index, IndexMut, Mul, MulAssign, Neg, Rem, RemAssign, Shl, ShlAssign, Shr, ShrAssign, Sub,
    SubAssign,
};
use vstd::prelude::*;
use vstd::std_specs::cmp::PartialEqSpec;
use vstd::std_specs::ops::{
    AddSpec, BitAndSpec, BitOrSpec, BitXorSpec, DivSpec, MulSpec, NegSpec, RemSpec, ShlSpec, ShrSpec,
    SubSpec,
};

verus! {

/// A vector of three fields of one element type.
#[derive(Debug)]
pub struct TVector3<T> {
    pub x: T,
    pub y: T,
    pub z: T,
}

impl<T: Copy> TVector3<T> {
    /// The first three fields of `vector`.
    pub open spec fn spec_from_vector_4(vector: TVector4<T>) -> Self {
        TVector3 { x: vector.x, y: vector.y, z: vector.z }
    }

    /// The `x`, `y` and `z` fields of `quat`.
    pub open spec fn spec_from_quaternion(quat: TQuaternion<T>) -> Self {
        TVector3 { x: quat.x, y: quat.y, z: quat.z }
    }

    /// The vector whose fields are all zero.
    pub fn empty() -> (r: Self)
        where
            T: Zero<T>,
        ensures
            r == (TVector3 { x: T::spec_zero(), y: T::spec_zero(), z: T::spec_zero() }),
    {
        TVector3 { x: T::zero(), y: T::zero(), z: T::zero() }
    }

    /// The vector with fields `x`, `y` and `z`.
    pub fn new(x: T, y: T, z: T) -> (r: Self)
        ensures
            r == (TVector3 { x, y, z }),
    {
        TVector3 { x, y, z }
    }

    /// The vector whose fields all equal `scalar`.
    pub fn from_scalar(scalar: T) -> (r: Self)
        ensures
            r == (TVector3 { x: scalar, y: scalar, z: scalar }),
    {
        TVector3 { x: scalar, y: scalar, z: scalar }
    }

    /// Truncates `vector` to its first three fields.
    pub fn from_vector_4(vector: TVector4<T>) -> (r: Self)
        ensures
            r == Self::spec_from_vector_4(vector),
    {
        TVector3 { x: vector.x, y: vector.y, z: vector.z }
    }

    /// `value` followed by the two fields of `vector`.
    pub fn from_value_vector(value: T, vector: TVector2<T>) -> (r: Self)
        ensures
            r == (TVector3 { x: value, y: vector.x, z: vector.y }),
    {
        TVector3 { x: value, y: vector.x, z: vector.y }
    }

    /// The two fields of `vector` followed by `value`.
    pub fn from_vector_value(vector: TVector2<T>, value: T) -> (r: Self)
        ensures
            r == (TVector3 { x: vector.x, y: vector.y, z: value }),
    {
        TVector3 { x: vector.x, y: vector.y, z: value }
    }

    /// Takes the `x`, `y` and `z` fields of `quat`.
    pub fn from_quaternion(quat: TQuaternion<T>) -> (r: Self)
        ensures
            r == Self::spec_from_quaternion(quat),
    {
        TVector3 { x: quat.x, y: quat.y, z: quat.z }
    }
}

impl<T: Zero<T>> From<TVector2<T>> for TVector3<T> {
    /// Widens `vector`, with a zero third field.
    fn from(vector: TVector2<T>) -> (r: Self) {
        TVector3 { x: vector.x, y: vector.y, z: T::zero() }
    }
}

impl<T: Zero<T>> vstd::std_specs::convert::FromSpecImpl<TVector2<T>> for TVector3<T> {
    open spec fn obeys_from_spec() -> bool {
        true
    }

    open spec fn from_spec(vector: TVector2<T>) -> Self {
        TVector3 { x: vector.x, y: vector.y, z: T::spec_zero() }
    }
}

impl<T> View for TVector3<T> {
    type V = Seq<T>;

    /// The fields in declaration order.
    open spec fn view(&self) -> Seq<T> {
        seq![self.x, self.y, self.z]
    }
}

impl<T: Copy> Clone for TVector3<T> {
    fn clone(&self) -> (r: Self)
        ensures
            r == *self,
    {
        *self
    }

    /// Overwrites every field with the same field of `source`.
    fn clone_from(&mut self, source: &Self)
        ensures
            *final(self) == *source,
    {
        self.x = source.x;
        self.y = source.y;
        self.z = source.z;
    }
}

impl<T: Copy> Copy for TVector3<T> {}

impl<T> Index<usize> for TVector3<T> {
    type Output = T;

    /// The field at `index`; an index past the last field reads the last field.
    fn index(&self, index: usize) -> (r: &T)
        ensures
            *r == self@[saturated(index, 3)],
    {
        match index {
            0 => &self.x,
            1 => &self.y,
            _ => &self.z,
        }
    }
}

impl<T> vstd::std_specs::core::IndexSpecImpl<usize> for TVector3<T> {
    /// Every index is accepted.
    open spec fn index_req(&self, index: &usize) -> bool {
        true
    }
}

impl<T> IndexMut<usize> for TVector3<T> {
    /// The field at `index` for writing; an index past the last field
    /// writes the last field. No other field changes.
    fn index_mut(&mut self, index: usize) -> (r: &mut T)
        ensures
            *r == old(self)@[saturated(index, 3)],
            final(self)@ == old(self)@.update(saturated(index, 3), *final(r)),
    {
        match index {
            0 => &mut self.x,
            1 => &mut self.y,
            _ => &mut self.z,
        }
    }
}

impl<T: PartialEq> PartialEq for TVector3<T> {
    /// Whether every field equals the same field of `other`.
    fn eq(&self, other: &Self) -> (r: bool) {
        self.x == other.x && self.y == other.y && self.z == other.z
    }
}

impl<T: PartialEq> vstd::std_specs::cmp::PartialEqSpecImpl for TVector3<T> {
    open spec fn obeys_eq_spec() -> bool {
        T::obeys_eq_spec()
    }

    open spec fn eq_spec(&self, other: &Self) -> bool {
        self.x.eq_spec(&other.x) && self.y.eq_spec(&other.y) && self.z.eq_spec(&other.z)
    }
}

impl<T: Add<Output = T> + Copy> Add<T> for TVector3<T> {
    type Output = Self;

    /// The sum of each field with `scalar`.
    fn add(self, scalar: T) -> (r: Self) {
        TVector3 { x: self.x + scalar, y: self.y + scalar, z: self.z + scalar }
    }
}

impl<T: Add<Output = T> + Copy> vstd::std_specs::ops::AddSpecImpl<T> for TVector3<T> {
    open spec fn obeys_add_spec() -> bool {
        T::obeys_add_spec()
    }

    open spec fn add_req(self, scalar: T) -> bool {
        self.x.add_req(scalar) && self.y.add_req(scalar) && self.z.add_req(scalar)
    }

    open spec fn add_spec(self, scalar: T) -> Self {
        TVector3 {
            x: self.x.add_spec(scalar),
            y: self.y.add_spec(scalar),
            z: self.z.add_spec(scalar),
        }
    }
}

impl<T: Add<Output = T> + Copy> Add<TVector3<T>> for TVector3<T> {
    type Output = Self;

    /// The sum of each field with the same field of `other`.
    fn add(self, other: Self) -> (r: Self) {
        TVector3 { x: self.x + other.x, y: self.y + other.y, z: self.z + other.z }
    }
}

impl<T: Add<Output = T> + Copy> vstd::std_specs::ops::AddSpecImpl<TVector3<T>> for TVector3<T> {
    open spec fn obeys_add_spec() -> bool {
        T::obeys_add_spec()
    }

    open spec fn add_req(self, other: Self) -> bool {
        self.x.add_req(other.x) && self.y.add_req(other.y) && self.z.add_req(other.z)
    }

    open spec fn add_spec(self, other: Self) -> Self {
        TVector3 {
            x: self.x.add_spec(other.x),
            y: self.y.add_spec(other.y),
            z: self.z.add_spec(other.z),
        }
    }
}

impl<T: Add<Output = T> + Copy> AddAssign<T> for TVector3<T> {
    /// Replaces each field by its sum with `scalar`.
    fn add_assign(&mut self, scalar: T)
        requires
            old(self).add_req(scalar),
        ensures
            T::obeys_add_spec() ==> *final(self) == old(self).add_spec(scalar),
    {
        *self = *self + scalar;
    }
}

impl<T: Add<Output = T> + Copy> AddAssign<TVector3<T>> for TVector3<T> {
    /// Replaces each field by its sum with the same field of `other`.
    fn add_assign(&mut self, other: Self)
        requires
            old(self).add_req(other),
        ensures
            T::obeys_add_spec() ==> *final(self) == old(self).add_spec(other),
    {
        *self = *self + other;
    }
}

impl<T: Sub<Output = T> + Copy> Sub<T> for TVector3<T> {
    type Output = Self;

    /// The difference of each field with `scalar`.
    fn sub(self, scalar: T) -> (r: Self) {
        TVector3 { x: self.x - scalar, y: self.y - scalar, z: self.z - scalar }
    }
}

impl<T: Sub<Output = T> + Copy> vstd::std_specs::ops::SubSpecImpl<T> for TVector3<T> {
    open spec fn obeys_sub_spec() -> bool {
        T::obeys_sub_spec()
    }

    open spec fn sub_req(self, scalar: T) -> bool {
        self.x.sub_req(scalar) && self.y.sub_req(scalar) && self.z.sub_req(scalar)
    }

    open spec fn sub_spec(self, scalar: T) -> Self {
        TVector3 {
            x: self.x.sub_spec(scalar),
            y: self.y.sub_spec(scalar),
            z: self.z.sub_spec(scalar),
        }
    }
}

impl<T: Sub<Output = T> + Copy> Sub<TVector3<T>> for TVector3<T> {
    type Output = Self;

    /// The difference of each field with the same field of `other`.
    fn sub(self, other: Self) -> (r: Self) {
        TVector3 { x: self.x - other.x, y: self.y - other.y, z: self.z - other.z }
    }
}

impl<T: Sub<Output = T> + Copy> vstd::std_specs::ops::SubSpecImpl<TVector3<T>> for TVector3<T> {
    open spec fn obeys_sub_spec() -> bool {
        T::obeys_sub_spec()
    }

    open spec fn sub_req(self, other: Self) -> bool {
        self.x.sub_req(other.x) && self.y.sub_req(other.y) && self.z.sub_req(other.z)
    }

    open spec fn sub_spec(self, other: Self) -> Self {
        TVector3 {
            x: self.x.sub_spec(other.x),
            y: self.y.sub_spec(other.y),
            z: self.z.sub_spec(other.z),
        }
    }
}

impl<T: Sub<Output = T> + Copy> SubAssign<T> for TVector3<T> {
    /// Replaces each field by its difference with `scalar`.
    fn sub_assign(&mut self, scalar: T)
        requires
            old(self).sub_req(scalar),
        ensures
            T::obeys_sub_spec() ==> *final(self) == old(self).sub_spec(scalar),
    {
        *self = *self - scalar;
    }
}

impl<T: Sub<Output = T> + Copy> SubAssign<TVector3<T>> for TVector3<T> {
    /// Replaces each field by its difference with the same field of `other`.
    fn sub_assign(&mut self, other: Self)
        requires
            old(self).sub_req(other),
        ensures
            T::obeys_sub_spec() ==> *final(self) == old(self).sub_spec(other),
    {
        *self = *self - other;
    }
}

impl<T: Mul<Output = T> + Copy> Mul<T> for TVector3<T> {
    type Output = Self;

    /// The product of each field with `scalar`.
    fn mul(self, scalar: T) -> (r: Self) {
        TVector3 { x: self.x * scalar, y: self.y * scalar, z: self.z * scalar }
    }
}

impl<T: Mul<Output = T> + Copy> vstd::std_specs::ops::MulSpecImpl<T> for TVector3<T> {
    open spec fn obeys_mul_spec() -> bool {
        T::obeys_mul_spec()
    }

    open spec fn mul_req(self, scalar: T) -> bool {
        self.x.mul_req(scalar) && self.y.mul_req(scalar) && self.z.mul_req(scalar)
    }

    open spec fn mul_spec(self, scalar: T) -> Self {
        TVector3 {
            x: self.x.mul_spec(scalar),
            y: self.y.mul_spec(scalar),
            z: self.z.mul_spec(scalar),
        }
    }
}

impl<T: Mul<Output = T> + Copy> Mul<TVector3<T>> for TVector3<T> {
    type Output = Self;

    /// The product of each field with the same field of `other`.
    fn mul(self, other: Self) -> (r: Self) {
        TVector3 { x: self.x * other.x, y: self.y * other.y, z: self.z * other.z }
    }
}

impl<T: Mul<Output = T> + Copy> vstd::std_specs::ops::MulSpecImpl<TVector3<T>> for TVector3<T> {
    open spec fn obeys_mul_spec() -> bool {
        T::obeys_mul_spec()
    }

    open spec fn mul_req(self, other: Self) -> bool {
        self.x.mul_req(other.x) && self.y.mul_req(other.y) && self.z.mul_req(other.z)
    }

    open spec fn mul_spec(self, other: Self) -> Self {
        TVector3 {
            x: self.x.mul_spec(other.x),
            y: self.y.mul_spec(other.y),
            z: self.z.mul_spec(other.z),
        }
    }
}

impl<T: Mul<Output = T> + Copy> MulAssign<T> for TVector3<T> {
    /// Replaces each field by its product with `scalar`.
    fn mul_assign(&mut self, scalar: T)
        requires
            old(self).mul_req(scalar),
        ensures
            T::obeys_mul_spec() ==> *final(self) == old(self).mul_spec(scalar),
    {
        *self = *self * scalar;
    }
}

impl<T: Mul<Output = T> + Copy> MulAssign<TVector3<T>> for TVector3<T> {
    /// Replaces each field by its product with the same field of `other`.
    fn mul_assign(&mut self, other: Self)
        requires
            old(self).mul_req(other),
        ensures
            T::obeys_mul_spec() ==> *final(self) == old(self).mul_spec(other),
    {
        *self = *self * other;
    }
}

impl<T: Div<Output = T> + Copy> Div<T> for TVector3<T> {
    type Output = Self;

    /// The quotient of each field with `scalar`.
    fn div(self, scalar: T) -> (r: Self) {
        TVector3 { x: self.x / scalar, y: self.y / scalar, z: self.z / scalar }
    }
}

impl<T: Div<Output = T> + Copy> vstd::std_specs::ops::DivSpecImpl<T> for TVector3<T> {
    open spec fn obeys_div_spec() -> bool {
        T::obeys_div_spec()
    }

    open spec fn div_req(self, scalar: T) -> bool {
        self.x.div_req(scalar) && self.y.div_req(scalar) && self.z.div_req(scalar)
    }

    open spec fn div_spec(self, scalar: T) -> Self {
        TVector3 {
            x: self.x.div_spec(scalar),
            y: self.y.div_spec(scalar),
            z: self.z.div_spec(scalar),
        }
    }
}

impl<T: Div<Output = T> + Copy> Div<TVector3<T>> for TVector3<T> {
    type Output = Self;

    /// The quotient of each field with the same field of `other`.
    fn div(self, other: Self) -> (r: Self) {
        TVector3 { x: self.x / other.x, y: self.y / other.y, z: self.z / other.z }
    }
}

impl<T: Div<Output = T> + Copy> vstd::std_specs::ops::DivSpecImpl<TVector3<T>> for TVector3<T> {
    open spec fn obeys_div_spec() -> bool {
        T::obeys_div_spec()
    }

    open spec fn div_req(self, other: Self) -> bool {
        self.x.div_req(other.x) && self.y.div_req(other.y) && self.z.div_req(other.z)
    }

    open spec fn div_spec(self, other: Self) -> Self {
        TVector3 {
            x: self.x.div_spec(other.x),
            y: self.y.div_spec(other.y),
            z: self.z.div_spec(other.z),
        }
    }
}

impl<T: Div<Output = T> + Copy> DivAssign<T> for TVector3<T> {
    /// Replaces each field by its quotient with `scalar`.
    fn div_assign(&mut self, scalar: T)
        requires
            old(self).div_req(scalar),
        ensures
            T::obeys_div_spec() ==> *final(self) == old(self).div_spec(scalar),
    {
        *self = *self / scalar;
    }
}

impl<T: Div<Output = T> + Copy> DivAssign<TVector3<T>> for TVector3<T> {
    /// Replaces each field by its quotient with the same field of `other`.
    fn div_assign(&mut self, other: Self)
        requires
            old(self).div_req(other),
        ensures
            T::obeys_div_spec() ==> *final(self) == old(self).div_spec(other),
    {
        *self = *self / other;
    }
}

impl<T: Rem<Output = T> + Copy> Rem<T> for TVector3<T> {
    type Output = Self;

    /// The remainder of each field with `scalar`.
    fn rem(self, scalar: T) -> (r: Self) {
        TVector3 { x: self.x % scalar, y: self.y % scalar, z: self.z % scalar }
    }
}

impl<T: Rem<Output = T> + Copy> vstd::std_specs::ops::RemSpecImpl<T> for TVector3<T> {
    open spec fn obeys_rem_spec() -> bool {
        T::obeys_rem_spec()
    }

    open spec fn rem_req(self, scalar: T) -> bool {
        self.x.rem_req(scalar) && self.y.rem_req(scalar) && self.z.rem_req(scalar)
    }

    open spec fn rem_spec(self, scalar: T) -> Self {
        TVector3 {
            x: self.x.rem_spec(scalar),
            y: self.y.rem_spec(scalar),
            z: self.z.rem_spec(scalar),
        }
    }
}

impl<T: Rem<Output = T> + Copy> Rem<TVector3<T>> for TVector3<T> {
    type Output = Self;

    /// The remainder of each field with the same field of `other`.
    fn rem(self, other: Self) -> (r: Self) {
        TVector3 { x: self.x % other.x, y: self.y % other.y, z: self.z % other.z }
    }
}

impl<T: Rem<Output = T> + Copy> vstd::std_specs::ops::RemSpecImpl<TVector3<T>> for TVector3<T> {
    open spec fn obeys_rem_spec() -> bool {
        T::obeys_rem_spec()
    }

    open spec fn rem_req(self, other: Self) -> bool {
        self.x.rem_req(other.x) && self.y.rem_req(other.y) && self.z.rem_req(other.z)
    }

    open spec fn rem_spec(self, other: Self) -> Self {
        TVector3 {
            x: self.x.rem_spec(other.x),
            y: self.y.rem_spec(other.y),
            z: self.z.rem_spec(other.z),
        }
    }
}

impl<T: Rem<Output = T> + Copy> RemAssign<T> for TVector3<T> {
    /// Replaces each field by its remainder with `scalar`.
    fn rem_assign(&mut self, scalar: T)
        requires
            old(self).rem_req(scalar),
        ensures
            T::obeys_rem_spec() ==> *final(self) == old(self).rem_spec(scalar),
    {
        *self = *self % scalar;
    }
}

impl<T: Rem<Output = T> + Copy> RemAssign<TVector3<T>> for TVector3<T> {
    /// Replaces each field by its remainder with the same field of `other`.
    fn rem_assign(&mut self, other: Self)
        requires
            old(self).rem_req(other),
        ensures
            T::obeys_rem_spec() ==> *final(self) == old(self).rem_spec(other),
    {
        *self = *self % other;
    }
}

impl<T: BitAnd<Output = T> + Copy> BitAnd<T> for TVector3<T> {
    type Output = Self;

    /// The bitwise and of each field with `scalar`.
    fn bitand(self, scalar: T) -> (r: Self) {
        TVector3 { x: self.x & scalar, y: self.y & scalar, z: self.z & scalar }
    }
}

impl<T: BitAnd<Output = T> + Copy> vstd::std_specs::ops::BitAndSpecImpl<T> for TVector3<T> {
    open spec fn obeys_bitand_spec() -> bool {
        T::obeys_bitand_spec()
    }

    open spec fn bitand_req(self, scalar: T) -> bool {
        self.x.bitand_req(scalar) && self.y.bitand_req(scalar) && self.z.bitand_req(scalar)
    }

    open spec fn bitand_spec(self, scalar: T) -> Self {
        TVector3 {
            x: self.x.bitand_spec(scalar),
            y: self.y.bitand_spec(scalar),
            z: self.z.bitand_spec(scalar),
        }
    }
}

impl<T: BitAnd<Output = T> + Copy> BitAnd<TVector3<T>> for TVector3<T> {
    type Output = Self;

    /// The bitwise and of each field with the same field of `other`.
    fn bitand(self, other: Self) -> (r: Self) {
        TVector3 { x: self.x & other.x, y: self.y & other.y, z: self.z & other.z }
    }
}

impl<T: BitAnd<Output = T> + Copy> vstd::std_specs::ops::BitAndSpecImpl<TVector3<T>> for TVector3<T> {
    open spec fn obeys_bitand_spec() -> bool {
        T::obeys_bitand_spec()
    }

    open spec fn bitand_req(self, other: Self) -> bool {
        self.x.bitand_req(other.x) && self.y.bitand_req(other.y) && self.z.bitand_req(other.z)
    }

    open spec fn bitand_spec(self, other: Self) -> Self {
        TVector3 {
            x: self.x.bitand_spec(other.x),
            y: self.y.bitand_spec(other.y),
            z: self.z.bitand_spec(other.z),
        }
    }
}

impl<T: BitAnd<Output = T> + Copy> BitAndAssign<T> for TVector3<T> {
    /// Replaces each field by its bitwise and with `scalar`.
    fn bitand_assign(&mut self, scalar: T)
        requires
            old(self).bitand_req(scalar),
        ensures
            T::obeys_bitand_spec() ==> *final(self) == old(self).bitand_spec(scalar),
    {
        *self = *self & scalar;
    }
}

impl<T: BitAnd<Output = T> + Copy> BitAndAssign<TVector3<T>> for TVector3<T> {
    /// Replaces each field by its bitwise and with the same field of `other`.
    fn bitand_assign(&mut self, other: Self)
        requires
            old(self).bitand_req(other),
        ensures
            T::obeys_bitand_spec() ==> *final(self) == old(self).bitand_spec(other),
    {
        *self = *self & other;
    }
}

impl<T: BitOr<Output = T> + Copy> BitOr<T> for TVector3<T> {
    type Output = Self;

    /// The bitwise or of each field with `scalar`.
    fn bitor(self, scalar: T) -> (r: Self) {
        TVector3 { x: self.x | scalar, y: self.y | scalar, z: self.z | scalar }
    }
}

impl<T: BitOr<Output = T> + Copy> vstd::std_specs::ops::BitOrSpecImpl<T> for TVector3<T> {
    open spec fn obeys_bitor_spec() -> bool {
        T::obeys_bitor_spec()
    }

    open spec fn bitor_req(self, scalar: T) -> bool {
        self.x.bitor_req(scalar) && self.y.bitor_req(scalar) && self.z.bitor_req(scalar)
    }

    open spec fn bitor_spec(self, scalar: T) -> Self {
        TVector3 {
            x: self.x.bitor_spec(scalar),
            y: self.y.bitor_spec(scalar),
            z: self.z.bitor_spec(scalar),
        }
    }
}

impl<T: BitOr<Output = T> + Copy> BitOr<TVector3<T>> for TVector3<T> {
    type Output = Self;

    /// The bitwise or of each field with the same field of `other`.
    fn bitor(self, other: Self) -> (r: Self) {
        TVector3 { x: self.x | other.x, y: self.y | other.y, z: self.z | other.z }
    }
}

impl<T: BitOr<Output = T> + Copy> vstd::std_specs::ops::BitOrSpecImpl<TVector3<T>> for TVector3<T> {
    open spec fn obeys_bitor_spec() -> bool {
        T::obeys_bitor_spec()
    }

    open spec fn bitor_req(self, other: Self) -> bool {
        self.x.bitor_req(other.x) && self.y.bitor_req(other.y) && self.z.bitor_req(other.z)
    }

    open spec fn bitor_spec(self, other: Self) -> Self {
        TVector3 {
            x: self.x.bitor_spec(other.x),
            y: self.y.bitor_spec(other.y),
            z: self.z.bitor_spec(other.z),
        }
    }
}

impl<T: BitOr<Output = T> + Copy> BitOrAssign<T> for TVector3<T> {
    /// Replaces each field by its bitwise or with `scalar`.
    fn bitor_assign(&mut self, scalar: T)
        requires
            old(self).bitor_req(scalar),
        ensures
            T::obeys_bitor_spec() ==> *final(self) == old(self).bitor_spec(scalar),
    {
        *self = *self | scalar;
    }
}

impl<T: BitOr<Output = T> + Copy> BitOrAssign<TVector3<T>> for TVector3<T> {
    /// Replaces each field by its bitwise or with the same field of `other`.
    fn bitor_assign(&mut self, other: Self)
        requires
            old(self).bitor_req(other),
        ensures
            T::obeys_bitor_spec() ==> *final(self) == old(self).bitor_spec(other),
    {
        *self = *self | other;
    }
}

impl<T: BitXor<Output = T> + Copy> BitXor<T> for TVector3<T> {
    type Output = Self;

    /// The bitwise exclusive or of each field with `scalar`.
    fn bitxor(self, scalar: T) -> (r: Self) {
        TVector3 { x: self.x ^ scalar, y: self.y ^ scalar, z: self.z ^ scalar }
    }
}

impl<T: BitXor<Output = T> + Copy> vstd::std_specs::ops::BitXorSpecImpl<T> for TVector3<T> {
    open spec fn obeys_bitxor_spec() -> bool {
        T::obeys_bitxor_spec()
    }

    open spec fn bitxor_req(self, scalar: T) -> bool {
        self.x.bitxor_req(scalar) && self.y.bitxor_req(scalar) && self.z.bitxor_req(scalar)
    }

    open spec fn bitxor_spec(self, scalar: T) -> Self {
        TVector3 {
            x: self.x.bitxor_spec(scalar),
            y: self.y.bitxor_spec(scalar),
            z: self.z.bitxor_spec(scalar),
        }
    }
}

impl<T: BitXor<Output = T> + Copy> BitXor<TVector3<T>> for TVector3<T> {
    type Output = Self;

    /// The bitwise exclusive or of each field with the same field of `other`.
    fn bitxor(self, other: Self) -> (r: Self) {
        TVector3 { x: self.x ^ other.x, y: self.y ^ other.y, z: self.z ^ other.z }
    }
}

impl<T: BitXor<Output = T> + Copy> vstd::std_specs::ops::BitXorSpecImpl<TVector3<T>> for TVector3<T> {
    open spec fn obeys_bitxor_spec() -> bool {
        T::obeys_bitxor_spec()
    }

    open spec fn bitxor_req(self, other: Self) -> bool {
        self.x.bitxor_req(other.x) && self.y.bitxor_req(other.y) && self.z.bitxor_req(other.z)
    }

    open spec fn bitxor_spec(self, other: Self) -> Self {
        TVector3 {
            x: self.x.bitxor_spec(other.x),
            y: self.y.bitxor_spec(other.y),
            z: self.z.bitxor_spec(other.z),
        }
    }
}

impl<T: BitXor<Output = T> + Copy> BitXorAssign<T> for TVector3<T> {
    /// Replaces each field by its bitwise exclusive or with `scalar`.
    fn bitxor_assign(&mut self, scalar: T)
        requires
            old(self).bitxor_req(scalar),
        ensures
            T::obeys_bitxor_spec() ==> *final(self) == old(self).bitxor_spec(scalar),
    {
        *self = *self ^ scalar;
    }
}

impl<T: BitXor<Output = T> + Copy> BitXorAssign<TVector3<T>> for TVector3<T> {
    /// Replaces each field by its bitwise exclusive or with the same field of `other`.
    fn bitxor_assign(&mut self, other: Self)
        requires
            old(self).bitxor_req(other),
        ensures
            T::obeys_bitxor_spec() ==> *final(self) == old(self).bitxor_spec(other),
    {
        *self = *self ^ other;
    }
}

impl<T: Shl<Output = T> + Copy> Shl<T> for TVector3<T> {
    type Output = Self;

    /// The left shift of each field with `scalar`.
    fn shl(self, scalar: T) -> (r: Self) {
        TVector3 { x: self.x << scalar, y: self.y << scalar, z: self.z << scalar }
    }
}

impl<T: Shl<Output = T> + Copy> vstd::std_specs::ops::ShlSpecImpl<T> for TVector3<T> {
    open spec fn obeys_shl_spec() -> bool {
        T::obeys_shl_spec()
    }

    open spec fn shl_req(self, scalar: T) -> bool {
        self.x.shl_req(scalar) && self.y.shl_req(scalar) && self.z.shl_req(scalar)
    }

    open spec fn shl_spec(self, scalar: T) -> Self {
        TVector3 {
            x: self.x.shl_spec(scalar),
            y: self.y.shl_spec(scalar),
            z: self.z.shl_spec(scalar),
        }
    }
}

impl<T: Shl<Output = T> + Copy> Shl<TVector3<T>> for TVector3<T> {
    type Output = Self;

    /// The left shift of each field with the same field of `other`.
    fn shl(self, other: Self) -> (r: Self) {
        TVector3 { x: self.x << other.x, y: self.y << other.y, z: self.z << other.z }
    }
}

impl<T: Shl<Output = T> + Copy> vstd::std_specs::ops::ShlSpecImpl<TVector3<T>> for TVector3<T> {
    open spec fn obeys_shl_spec() -> bool {
        T::obeys_shl_spec()
    }

    open spec fn shl_req(self, other: Self) -> bool {
        self.x.shl_req(other.x) && self.y.shl_req(other.y) && self.z.shl_req(other.z)
    }

    open spec fn shl_spec(self, other: Self) -> Self {
        TVector3 {
            x: self.x.shl_spec(other.x),
            y: self.y.shl_spec(other.y),
            z: self.z.shl_spec(other.z),
        }
    }
}

impl<T: Shl<Output = T> + Copy> ShlAssign<T> for TVector3<T> {
    /// Replaces each field by its left shift with `scalar`.
    fn shl_assign(&mut self, scalar: T)
        requires
            old(self).shl_req(scalar),
        ensures
            T::obeys_shl_spec() ==> *final(self) == old(self).shl_spec(scalar),
    {
        *self = *self << scalar;
    }
}

impl<T: Shl<Output = T> + Copy> ShlAssign<TVector3<T>> for TVector3<T> {
    /// Replaces each field by its left shift with the same field of `other`.
    fn shl_assign(&mut self, other: Self)
        requires
            old(self).shl_req(other),
        ensures
            T::obeys_shl_spec() ==> *final(self) == old(self).shl_spec(other),
    {
        *self = *self << other;
    }
}

impl<T: Shr<Output = T> + Copy> Shr<T> for TVector3<T> {
    type Output = Self;

    /// The right shift of each field with `scalar`.
    fn shr(self, scalar: T) -> (r: Self) {
        TVector3 { x: self.x >> scalar, y: self.y >> scalar, z: self.z >> scalar }
    }
}

impl<T: Shr<Output = T> + Copy> vstd::std_specs::ops::ShrSpecImpl<T> for TVector3<T> {
    open spec fn obeys_shr_spec() -> bool {
        T::obeys_shr_spec()
    }

    open spec fn shr_req(self, scalar: T) -> bool {
        self.x.shr_req(scalar) && self.y.shr_req(scalar) && self.z.shr_req(scalar)
    }

    open spec fn shr_spec(self, scalar: T) -> Self {
        TVector3 {
            x: self.x.shr_spec(scalar),
            y: self.y.shr_spec(scalar),
            z: self.z.shr_spec(scalar),
        }
    }
}

impl<T: Shr<Output = T> + Copy> Shr<TVector3<T>> for TVector3<T> {
    type Output = Self;

    /// The right shift of each field with the same field of `other`.
    fn shr(self, other: Self) -> (r: Self) {
        TVector3 { x: self.x >> other.x, y: self.y >> other.y, z: self.z >> other.z }
    }
}

impl<T: Shr<Output = T> + Copy> vstd::std_specs::ops::ShrSpecImpl<TVector3<T>> for TVector3<T> {
    open spec fn obeys_shr_spec() -> bool {
        T::obeys_shr_spec()
    }

    open spec fn shr_req(self, other: Self) -> bool {
        self.x.shr_req(other.x) && self.y.shr_req(other.y) && self.z.shr_req(other.z)
    }

    open spec fn shr_spec(self, other: Self) -> Self {
        TVector3 {
            x: self.x.shr_spec(other.x),
            y: self.y.shr_spec(other.y),
            z: self.z.shr_spec(other.z),
        }
    }
}

impl<T: Shr<Output = T> + Copy> ShrAssign<T> for TVector3<T> {
    /// Replaces each field by its right shift with `scalar`.
    fn shr_assign(&mut self, scalar: T)
        requires
            old(self).shr_req(scalar),
        ensures
            T::obeys_shr_spec() ==> *final(self) == old(self).shr_spec(scalar),
    {
        *self = *self >> scalar;
    }
}

impl<T: Shr<Output = T> + Copy> ShrAssign<TVector3<T>> for TVector3<T> {
    /// Replaces each field by its right shift with the same field of `other`.
    fn shr_assign(&mut self, other: Self)
        requires
            old(self).shr_req(other),
        ensures
            T::obeys_shr_spec() ==> *final(self) == old(self).shr_spec(other),
    {
        *self = *self >> other;
    }
}

impl<T: Neg<Output = T> + Copy> Neg for TVector3<T> {
    type Output = Self;

    /// The negation of each field.
    fn neg(self) -> (r: Self) {
        TVector3 { x: self.x.neg(), y: self.y.neg(), z: self.z.neg() }
    }
}

impl<T: Neg<Output = T> + Copy> vstd::std_specs::ops::NegSpecImpl for TVector3<T> {
    open spec fn obeys_neg_spec() -> bool {
        T::obeys_neg_spec()
    }

    open spec fn neg_req(self) -> bool {
        self.x.neg_req() && self.y.neg_req() && self.z.neg_req()
    }

    open spec fn neg_spec(self) -> Self {
        TVector3 { x: self.x.neg_spec(), y: self.y.neg_spec(), z: self.z.neg_spec() }
    }
}

} // verus!
