//! The zero and one of each supported primitive element type.

use vstd::prelude::*;

verus! {

/// An element type with an additive identity.
pub trait Zero<T> {
    /// The additive identity of the element type.
    spec fn spec_zero() -> T;

    fn zero() -> (r: T)
        ensures
            r == Self::spec_zero(),
    ;
}

/// An element type with a multiplicative identity.
pub trait One<T> {
    /// The multiplicative identity of the element type.
    spec fn spec_one() -> T;

    fn one() -> (r: T)
        ensures
            r == Self::spec_one(),
    ;
}

impl Zero<i8> for i8 {
    open spec fn spec_zero() -> i8 {
        0
    }

    fn zero() -> (r: i8) {
        0
    }
}

impl Zero<i16> for i16 {
    open spec fn spec_zero() -> i16 {
        0
    }

    fn zero() -> (r: i16) {
        0
    }
}

impl Zero<i32> for i32 {
    open spec fn spec_zero() -> i32 {
        0
    }

    fn zero() -> (r: i32) {
        0
    }
}

impl Zero<i64> for i64 {
    open spec fn spec_zero() -> i64 {
        0
    }

    fn zero() -> (r: i64) {
        0
    }
}

impl Zero<i128> for i128 {
    open spec fn spec_zero() -> i128 {
        0
    }

    fn zero() -> (r: i128) {
        0
    }
}

impl Zero<u8> for u8 {
    open spec fn spec_zero() -> u8 {
        0
    }

    fn zero() -> (r: u8) {
        0
    }
}

impl Zero<u16> for u16 {
    open spec fn spec_zero() -> u16 {
        0
    }

    fn zero() -> (r: u16) {
        0
    }
}

impl Zero<u32> for u32 {
    open spec fn spec_zero() -> u32 {
        0
    }

    fn zero() -> (r: u32) {
        0
    }
}

impl Zero<u64> for u64 {
    open spec fn spec_zero() -> u64 {
        0
    }

    fn zero() -> (r: u64) {
        0
    }
}

impl Zero<u128> for u128 {
    open spec fn spec_zero() -> u128 {
        0
    }

    fn zero() -> (r: u128) {
        0
    }
}

impl Zero<bool> for bool {
    open spec fn spec_zero() -> bool {
        false
    }

    fn zero() -> (r: bool) {
        false
    }
}

impl One<i8> for i8 {
    open spec fn spec_one() -> i8 {
        1
    }

    fn one() -> (r: i8) {
        1
    }
}

impl One<i16> for i16 {
    open spec fn spec_one() -> i16 {
        1
    }

    fn one() -> (r: i16) {
        1
    }
}

impl One<i32> for i32 {
    open spec fn spec_one() -> i32 {
        1
    }

    fn one() -> (r: i32) {
        1
    }
}

impl One<i64> for i64 {
    open spec fn spec_one() -> i64 {
        1
    }

    fn one() -> (r: i64) {
        1
    }
}

impl One<i128> for i128 {
    open spec fn spec_one() -> i128 {
        1
    }

    fn one() -> (r: i128) {
        1
    }
}

impl One<u8> for u8 {
    open spec fn spec_one() -> u8 {
        1
    }

    fn one() -> (r: u8) {
        1
    }
}

impl One<u16> for u16 {
    open spec fn spec_one() -> u16 {
        1
    }

    fn one() -> (r: u16) {
        1
    }
}

impl One<u32> for u32 {
    open spec fn spec_one() -> u32 {
        1
    }

    fn one() -> (r: u32) {
        1
    }
}

impl One<u64> for u64 {
    open spec fn spec_one() -> u64 {
        1
    }

    fn one() -> (r: u64) {
        1
    }
}

impl One<u128> for u128 {
    open spec fn spec_one() -> u128 {
        1
    }

    fn one() -> (r: u128) {
        1
    }
}

impl One<bool> for bool {
    open spec fn spec_one() -> bool {
        true
    }

    fn one() -> (r: bool) {
        true
    }
}

} // verus!
