//! The quaternion type.

pub use crate::quaternion::TQuaternion;
