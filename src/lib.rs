//! Small fixed-size vectors and quaternions over a generic element type,
//! with componentwise operators, saturating field indexing and conversions
//! between the shapes.

use vstd::prelude::*;

pub mod laws;
pub mod num_traits;
pub mod quaternion;
pub mod quaternions;
pub mod vector_2;
pub mod vector_3;
pub mod vector_4;
pub mod vectors;

verus! {

/// The position that `index` reads in a sequence of `len` fields: an index
/// past the last field reads the last field.
pub open spec fn saturated(index: usize, len: nat) -> int {
    if index < len {
        index as int
    } else {
        len - 1
    }
}

} // verus!
