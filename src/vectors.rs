//! The vector types and their aliases for the integer and boolean element types.

pub use crate::vector_2::TVector2;
pub use crate::vector_3::TVector3;
pub use crate::vector_4::TVector4;
use vstd::prelude::*;

verus! {

pub type IVector2 = TVector2<i32>;
pub type UVector2 = TVector2<u32>;

pub type I8Vector2 = TVector2<i8>;
pub type I16Vector2 = TVector2<i16>;
pub type I32Vector2 = TVector2<i32>;
pub type I64Vector2 = TVector2<i64>;
pub type I128Vector2 = TVector2<i128>;
pub type U8Vector2 = TVector2<u8>;
pub type U16Vector2 = TVector2<u16>;
pub type U32Vector2 = TVector2<u32>;
pub type U64Vector2 = TVector2<u64>;
pub type U128Vector2 = TVector2<u128>;
pub type BVector2 = TVector2<bool>;

pub type IVector3 = TVector3<i32>;
pub type UVector3 = TVector3<u32>;

pub type I8Vector3 = TVector3<i8>;
pub type I16Vector3 = TVector3<i16>;
pub type I32Vector3 = TVector3<i32>;
pub type I64Vector3 = TVector3<i64>;
pub type I128Vector3 = TVector3<i128>;
pub type U8Vector3 = TVector3<u8>;
pub type U16Vector3 = TVector3<u16>;
pub type U32Vector3 = TVector3<u32>;
pub type U64Vector3 = TVector3<u64>;
pub type U128Vector3 = TVector3<u128>;
pub type BVector3 = TVector3<bool>;

pub type IVector4 = TVector4<i32>;
pub type UVector4 = TVector4<u32>;

pub type I8Vector4 = TVector4<i8>;
pub type I16Vector4 = TVector4<i16>;
pub type I32Vector4 = TVector4<i32>;
pub type I64Vector4 = TVector4<i64>;
pub type I128Vector4 = TVector4<i128>;
pub type U8Vector4 = TVector4<u8>;
pub type U16Vector4 = TVector4<u16>;
pub type U32Vector4 = TVector4<u32>;
pub type U64Vector4 = TVector4<u64>;
pub type U128Vector4 = TVector4<u128>;
pub type BVector4 = TVector4<bool>;

} // verus!
