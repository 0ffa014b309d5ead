//! Quaternions.

use crate::num_traits::{One, Zero};
use vstd::prelude::*;
use vstd::std_specs::cmp::PartialEqSpec;

verus! {

/// A quaternion with real part `w` and imaginary parts `x`, `y` and `z`.
#[derive(Debug)]
pub struct TQuaternion<T> {
    pub w: T,
    pub x: T,
    pub y: T,
    pub z: T,
}

impl<T: Zero<T> + One<T>> TQuaternion<T> {
    /// The identity quaternion: `w` is one, `x`, `y` and `z` are zero.
    pub open spec fn spec_identity() -> Self {
        TQuaternion { w: T::spec_one(), x: T::spec_zero(), y: T::spec_zero(), z: T::spec_zero() }
    }

    /// The identity quaternion: `w` is one, `x`, `y` and `z` are zero.
    pub fn identity() -> (r: Self)
        ensures
            r == Self::spec_identity(),
    {
        TQuaternion { w: T::one(), x: T::zero(), y: T::zero(), z: T::zero() }
    }
}

impl<T: Copy> Clone for TQuaternion<T> {
    fn clone(&self) -> (r: Self)
        ensures
            r == *self,
    {
        *self
    }

    /// Overwrites every field with the same field of `source`.
    fn clone_from(&mut self, source: &Self)
        ensures
            *final(self) == *source,
    {
        self.w = source.w;
        self.x = source.x;
        self.y = source.y;
        self.z = source.z;
    }
}

impl<T: Copy> Copy for TQuaternion<T> {}

impl<T: PartialEq> PartialEq for TQuaternion<T> {
    /// Whether every field equals the same field of `other`.
    fn eq(&self, other: &Self) -> (r: bool) {
        self.w == other.w && self.x == other.x && self.y == other.y && self.z == other.z
    }
}

impl<T: PartialEq> vstd::std_specs::cmp::PartialEqSpecImpl for TQuaternion<T> {
    open spec fn obeys_eq_spec() -> bool {
        T::obeys_eq_spec()
    }

    open spec fn eq_spec(&self, other: &Self) -> bool {
        &&& self.w.eq_spec(&other.w)
        &&& self.x.eq_spec(&other.x)
        &&& self.y.eq_spec(&other.y)
        &&& self.z.eq_spec(&other.z)
    }
}

} // verus!
