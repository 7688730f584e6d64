use crate::vectors::Vector2;
use crate::vectors::Vector3;
use crate::vectors::Vector4;
use vstd::prelude::*;

verus! {

/// An explicit component conversion between element types, with the exact
/// meaning of the `as` operator: value-preserving where the target can hold
/// every source value, truncating otherwise.
pub trait Cast<Output>: Copy {
    /// The value the conversion yields.
    spec fn cast_spec(self) -> Output;

    fn cast(self) -> (r: Output)
        ensures
            r == self.cast_spec(),
    ;
}

/// Convert a 2-vector component-wise to another element type.
pub fn cast<Input: Cast<Output>, Output>(me: Vector2<Input>) -> (r: Vector2<Output>)
    ensures
        r.x == me.x.cast_spec(),
        r.y == me.y.cast_spec(),
{
    Vector2 { x: me.x.cast(), y: me.y.cast() }
}

/// Convert a 3-vector component-wise to another element type.
pub fn cast3<Input: Cast<Output>, Output>(me: Vector3<Input>) -> (r: Vector3<Output>)
    ensures
        r.x == me.x.cast_spec(),
        r.y == me.y.cast_spec(),
        r.z == me.z.cast_spec(),
{
    Vector3 { x: me.x.cast(), y: me.y.cast(), z: me.z.cast() }
}

/// Convert a 4-vector component-wise to another element type.
pub fn cast4<Input: Cast<Output>, Output>(me: Vector4<Input>) -> (r: Vector4<Output>)
    ensures
        r.x == me.x.cast_spec(),
        r.y == me.y.cast_spec(),
        r.z == me.z.cast_spec(),
        r.w == me.w.cast_spec(),
{
    Vector4 { x: me.x.cast(), y: me.y.cast(), z: me.z.cast(), w: me.w.cast() }
}

impl Cast<u16> for u8 {
    open spec fn cast_spec(self) -> u16 {
        self as u16
    }

    fn cast(self) -> u16 {
        self as u16
    }
}

impl Cast<u32> for u8 {
    open spec fn cast_spec(self) -> u32 {
        self as u32
    }

    fn cast(self) -> u32 {
        self as u32
    }
}

impl Cast<u64> for u8 {
    open spec fn cast_spec(self) -> u64 {
        self as u64
    }

    fn cast(self) -> u64 {
        self as u64
    }
}

impl Cast<u128> for u8 {
    open spec fn cast_spec(self) -> u128 {
        self as u128
    }

    fn cast(self) -> u128 {
        self as u128
    }
}

impl Cast<i8> for u8 {
    open spec fn cast_spec(self) -> i8 {
        self as i8
    }

    fn cast(self) -> i8 {
        #[verifier::truncate] (self as i8)
    }
}

impl Cast<i16> for u8 {
    open spec fn cast_spec(self) -> i16 {
        self as i16
    }

    fn cast(self) -> i16 {
        self as i16
    }
}

impl Cast<i32> for u8 {
    open spec fn cast_spec(self) -> i32 {
        self as i32
    }

    fn cast(self) -> i32 {
        self as i32
    }
}

impl Cast<i64> for u8 {
    open spec fn cast_spec(self) -> i64 {
        self as i64
    }

    fn cast(self) -> i64 {
        self as i64
    }
}

impl Cast<i128> for u8 {
    open spec fn cast_spec(self) -> i128 {
        self as i128
    }

    fn cast(self) -> i128 {
        self as i128
    }
}

impl Cast<u8> for u16 {
    open spec fn cast_spec(self) -> u8 {
        self as u8
    }

    fn cast(self) -> u8 {
        #[verifier::truncate] (self as u8)
    }
}

impl Cast<u32> for u16 {
    open spec fn cast_spec(self) -> u32 {
        self as u32
    }

    fn cast(self) -> u32 {
        self as u32
    }
}

impl Cast<u64> for u16 {
    open spec fn cast_spec(self) -> u64 {
        self as u64
    }

    fn cast(self) -> u64 {
        self as u64
    }
}

impl Cast<u128> for u16 {
    open spec fn cast_spec(self) -> u128 {
        self as u128
    }

    fn cast(self) -> u128 {
        self as u128
    }
}

impl Cast<i8> for u16 {
    open spec fn cast_spec(self) -> i8 {
        self as i8
    }

    fn cast(self) -> i8 {
        #[verifier::truncate] (self as i8)
    }
}

impl Cast<i16> for u16 {
    open spec fn cast_spec(self) -> i16 {
        self as i16
    }

    fn cast(self) -> i16 {
        #[verifier::truncate] (self as i16)
    }
}

impl Cast<i32> for u16 {
    open spec fn cast_spec(self) -> i32 {
        self as i32
    }

    fn cast(self) -> i32 {
        self as i32
    }
}

impl Cast<i64> for u16 {
    open spec fn cast_spec(self) -> i64 {
        self as i64
    }

    fn cast(self) -> i64 {
        self as i64
    }
}

impl Cast<i128> for u16 {
    open spec fn cast_spec(self) -> i128 {
        self as i128
    }

    fn cast(self) -> i128 {
        self as i128
    }
}

impl Cast<u8> for u32 {
    open spec fn cast_spec(self) -> u8 {
        self as u8
    }

    fn cast(self) -> u8 {
        #[verifier::truncate] (self as u8)
    }
}

impl Cast<u16> for u32 {
    open spec fn cast_spec(self) -> u16 {
        self as u16
    }

    fn cast(self) -> u16 {
        #[verifier::truncate] (self as u16)
    }
}

impl Cast<u64> for u32 {
    open spec fn cast_spec(self) -> u64 {
        self as u64
    }

    fn cast(self) -> u64 {
        self as u64
    }
}

impl Cast<u128> for u32 {
    open spec fn cast_spec(self) -> u128 {
        self as u128
    }

    fn cast(self) -> u128 {
        self as u128
    }
}

impl Cast<i8> for u32 {
    open spec fn cast_spec(self) -> i8 {
        self as i8
    }

    fn cast(self) -> i8 {
        #[verifier::truncate] (self as i8)
    }
}

impl Cast<i16> for u32 {
    open spec fn cast_spec(self) -> i16 {
        self as i16
    }

    fn cast(self) -> i16 {
        #[verifier::truncate] (self as i16)
    }
}

impl Cast<i32> for u32 {
    open spec fn cast_spec(self) -> i32 {
        self as i32
    }

    fn cast(self) -> i32 {
        #[verifier::truncate] (self as i32)
    }
}

impl Cast<i64> for u32 {
    open spec fn cast_spec(self) -> i64 {
        self as i64
    }

    fn cast(self) -> i64 {
        self as i64
    }
}

impl Cast<i128> for u32 {
    open spec fn cast_spec(self) -> i128 {
        self as i128
    }

    fn cast(self) -> i128 {
        self as i128
    }
}

impl Cast<u8> for u64 {
    open spec fn cast_spec(self) -> u8 {
        self as u8
    }

    fn cast(self) -> u8 {
        #[verifier::truncate] (self as u8)
    }
}

impl Cast<u16> for u64 {
    open spec fn cast_spec(self) -> u16 {
        self as u16
    }

    fn cast(self) -> u16 {
        #[verifier::truncate] (self as u16)
    }
}

impl Cast<u32> for u64 {
    open spec fn cast_spec(self) -> u32 {
        self as u32
    }

    fn cast(self) -> u32 {
        #[verifier::truncate] (self as u32)
    }
}

impl Cast<u128> for u64 {
    open spec fn cast_spec(self) -> u128 {
        self as u128
    }

    fn cast(self) -> u128 {
        self as u128
    }
}

impl Cast<i8> for u64 {
    open spec fn cast_spec(self) -> i8 {
        self as i8
    }

    fn cast(self) -> i8 {
        #[verifier::truncate] (self as i8)
    }
}

impl Cast<i16> for u64 {
    open spec fn cast_spec(self) -> i16 {
        self as i16
    }

    fn cast(self) -> i16 {
        #[verifier::truncate] (self as i16)
    }
}

impl Cast<i32> for u64 {
    open spec fn cast_spec(self) -> i32 {
        self as i32
    }

    fn cast(self) -> i32 {
        #[verifier::truncate] (self as i32)
    }
}

impl Cast<i64> for u64 {
    open spec fn cast_spec(self) -> i64 {
        self as i64
    }

    fn cast(self) -> i64 {
        #[verifier::truncate] (self as i64)
    }
}

impl Cast<i128> for u64 {
    open spec fn cast_spec(self) -> i128 {
        self as i128
    }

    fn cast(self) -> i128 {
        self as i128
    }
}

impl Cast<u8> for u128 {
    open spec fn cast_spec(self) -> u8 {
        self as u8
    }

    fn cast(self) -> u8 {
        #[verifier::truncate] (self as u8)
    }
}

impl Cast<u16> for u128 {
    open spec fn cast_spec(self) -> u16 {
        self as u16
    }

    fn cast(self) -> u16 {
        #[verifier::truncate] (self as u16)
    }
}

impl Cast<u32> for u128 {
    open spec fn cast_spec(self) -> u32 {
        self as u32
    }

    fn cast(self) -> u32 {
        #[verifier::truncate] (self as u32)
    }
}

impl Cast<u64> for u128 {
    open spec fn cast_spec(self) -> u64 {
        self as u64
    }

    fn cast(self) -> u64 {
        #[verifier::truncate] (self as u64)
    }
}

impl Cast<i8> for u128 {
    open spec fn cast_spec(self) -> i8 {
        self as i8
    }

    fn cast(self) -> i8 {
        #[verifier::truncate] (self as i8)
    }
}

impl Cast<i16> for u128 {
    open spec fn cast_spec(self) -> i16 {
        self as i16
    }

    fn cast(self) -> i16 {
        #[verifier::truncate] (self as i16)
    }
}

impl Cast<i32> for u128 {
    open spec fn cast_spec(self) -> i32 {
        self as i32
    }

    fn cast(self) -> i32 {
        #[verifier::truncate] (self as i32)
    }
}

impl Cast<i64> for u128 {
    open spec fn cast_spec(self) -> i64 {
        self as i64
    }

    fn cast(self) -> i64 {
        #[verifier::truncate] (self as i64)
    }
}

impl Cast<i128> for u128 {
    open spec fn cast_spec(self) -> i128 {
        self as i128
    }

    fn cast(self) -> i128 {
        #[verifier::truncate] (self as i128)
    }
}

impl Cast<u8> for i8 {
    open spec fn cast_spec(self) -> u8 {
        self as u8
    }

    fn cast(self) -> u8 {
        #[verifier::truncate] (self as u8)
    }
}

impl Cast<u16> for i8 {
    open spec fn cast_spec(self) -> u16 {
        self as u16
    }

    fn cast(self) -> u16 {
        #[verifier::truncate] (self as u16)
    }
}

impl Cast<u32> for i8 {
    open spec fn cast_spec(self) -> u32 {
        self as u32
    }

    fn cast(self) -> u32 {
        #[verifier::truncate] (self as u32)
    }
}

impl Cast<u64> for i8 {
    open spec fn cast_spec(self) -> u64 {
        self as u64
    }

    fn cast(self) -> u64 {
        #[verifier::truncate] (self as u64)
    }
}

impl Cast<u128> for i8 {
    open spec fn cast_spec(self) -> u128 {
        self as u128
    }

    fn cast(self) -> u128 {
        #[verifier::truncate] (self as u128)
    }
}

impl Cast<i16> for i8 {
    open spec fn cast_spec(self) -> i16 {
        self as i16
    }

    fn cast(self) -> i16 {
        self as i16
    }
}

impl Cast<i32> for i8 {
    open spec fn cast_spec(self) -> i32 {
        self as i32
    }

    fn cast(self) -> i32 {
        self as i32
    }
}

impl Cast<i64> for i8 {
    open spec fn cast_spec(self) -> i64 {
        self as i64
    }

    fn cast(self) -> i64 {
        self as i64
    }
}

impl Cast<i128> for i8 {
    open spec fn cast_spec(self) -> i128 {
        self as i128
    }

    fn cast(self) -> i128 {
        self as i128
    }
}

impl Cast<u8> for i16 {
    open spec fn cast_spec(self) -> u8 {
        self as u8
    }

    fn cast(self) -> u8 {
        #[verifier::truncate] (self as u8)
    }
}

impl Cast<u16> for i16 {
    open spec fn cast_spec(self) -> u16 {
        self as u16
    }

    fn cast(self) -> u16 {
        #[verifier::truncate] (self as u16)
    }
}

impl Cast<u32> for i16 {
    open spec fn cast_spec(self) -> u32 {
        self as u32
    }

    fn cast(self) -> u32 {
        #[verifier::truncate] (self as u32)
    }
}

impl Cast<u64> for i16 {
    open spec fn cast_spec(self) -> u64 {
        self as u64
    }

    fn cast(self) -> u64 {
        #[verifier::truncate] (self as u64)
    }
}

impl Cast<u128> for i16 {
    open spec fn cast_spec(self) -> u128 {
        self as u128
    }

    fn cast(self) -> u128 {
        #[verifier::truncate] (self as u128)
    }
}

impl Cast<i8> for i16 {
    open spec fn cast_spec(self) -> i8 {
        self as i8
    }

    fn cast(self) -> i8 {
        #[verifier::truncate] (self as i8)
    }
}

impl Cast<i32> for i16 {
    open spec fn cast_spec(self) -> i32 {
        self as i32
    }

    fn cast(self) -> i32 {
        self as i32
    }
}

impl Cast<i64> for i16 {
    open spec fn cast_spec(self) -> i64 {
        self as i64
    }

    fn cast(self) -> i64 {
        self as i64
    }
}

impl Cast<i128> for i16 {
    open spec fn cast_spec(self) -> i128 {
        self as i128
    }

    fn cast(self) -> i128 {
        self as i128
    }
}

impl Cast<u8> for i32 {
    open spec fn cast_spec(self) -> u8 {
        self as u8
    }

    fn cast(self) -> u8 {
        #[verifier::truncate] (self as u8)
    }
}

impl Cast<u16> for i32 {
    open spec fn cast_spec(self) -> u16 {
        self as u16
    }

    fn cast(self) -> u16 {
        #[verifier::truncate] (self as u16)
    }
}

impl Cast<u32> for i32 {
    open spec fn cast_spec(self) -> u32 {
        self as u32
    }

    fn cast(self) -> u32 {
        #[verifier::truncate] (self as u32)
    }
}

impl Cast<u64> for i32 {
    open spec fn cast_spec(self) -> u64 {
        self as u64
    }

    fn cast(self) -> u64 {
        #[verifier::truncate] (self as u64)
    }
}

impl Cast<u128> for i32 {
    open spec fn cast_spec(self) -> u128 {
        self as u128
    }

    fn cast(self) -> u128 {
        #[verifier::truncate] (self as u128)
    }
}

impl Cast<i8> for i32 {
    open spec fn cast_spec(self) -> i8 {
        self as i8
    }

    fn cast(self) -> i8 {
        #[verifier::truncate] (self as i8)
    }
}

impl Cast<i16> for i32 {
    open spec fn cast_spec(self) -> i16 {
        self as i16
    }

    fn cast(self) -> i16 {
        #[verifier::truncate] (self as i16)
    }
}

impl Cast<i64> for i32 {
    open spec fn cast_spec(self) -> i64 {
        self as i64
    }

    fn cast(self) -> i64 {
        self as i64
    }
}

impl Cast<i128> for i32 {
    open spec fn cast_spec(self) -> i128 {
        self as i128
    }

    fn cast(self) -> i128 {
        self as i128
    }
}

impl Cast<u8> for i64 {
    open spec fn cast_spec(self) -> u8 {
        self as u8
    }

    fn cast(self) -> u8 {
        #[verifier::truncate] (self as u8)
    }
}

impl Cast<u16> for i64 {
    open spec fn cast_spec(self) -> u16 {
        self as u16
    }

    fn cast(self) -> u16 {
        #[verifier::truncate] (self as u16)
    }
}

impl Cast<u32> for i64 {
    open spec fn cast_spec(self) -> u32 {
        self as u32
    }

    fn cast(self) -> u32 {
        #[verifier::truncate] (self as u32)
    }
}

impl Cast<u64> for i64 {
    open spec fn cast_spec(self) -> u64 {
        self as u64
    }

    fn cast(self) -> u64 {
        #[verifier::truncate] (self as u64)
    }
}

impl Cast<u128> for i64 {
    open spec fn cast_spec(self) -> u128 {
        self as u128
    }

    fn cast(self) -> u128 {
        #[verifier::truncate] (self as u128)
    }
}

impl Cast<i8> for i64 {
    open spec fn cast_spec(self) -> i8 {
        self as i8
    }

    fn cast(self) -> i8 {
        #[verifier::truncate] (self as i8)
    }
}

impl Cast<i16> for i64 {
    open spec fn cast_spec(self) -> i16 {
        self as i16
    }

    fn cast(self) -> i16 {
        #[verifier::truncate] (self as i16)
    }
}

impl Cast<i32> for i64 {
    open spec fn cast_spec(self) -> i32 {
        self as i32
    }

    fn cast(self) -> i32 {
        #[verifier::truncate] (self as i32)
    }
}

impl Cast<i128> for i64 {
    open spec fn cast_spec(self) -> i128 {
        self as i128
    }

    fn cast(self) -> i128 {
        self as i128
    }
}

impl Cast<u8> for i128 {
    open spec fn cast_spec(self) -> u8 {
        self as u8
    }

    fn cast(self) -> u8 {
        #[verifier::truncate] (self as u8)
    }
}

impl Cast<u16> for i128 {
    open spec fn cast_spec(self) -> u16 {
        self as u16
    }

    fn cast(self) -> u16 {
        #[verifier::truncate] (self as u16)
    }
}

impl Cast<u32> for i128 {
    open spec fn cast_spec(self) -> u32 {
        self as u32
    }

    fn cast(self) -> u32 {
        #[verifier::truncate] (self as u32)
    }
}

impl Cast<u64> for i128 {
    open spec fn cast_spec(self) -> u64 {
        self as u64
    }

    fn cast(self) -> u64 {
        #[verifier::truncate] (self as u64)
    }
}

impl Cast<u128> for i128 {
    open spec fn cast_spec(self) -> u128 {
        self as u128
    }

    fn cast(self) -> u128 {
        #[verifier::truncate] (self as u128)
    }
}

impl Cast<i8> for i128 {
    open spec fn cast_spec(self) -> i8 {
        self as i8
    }

    fn cast(self) -> i8 {
        #[verifier::truncate] (self as i8)
    }
}

impl Cast<i16> for i128 {
    open spec fn cast_spec(self) -> i16 {
        self as i16
    }

    fn cast(self) -> i16 {
        #[verifier::truncate] (self as i16)
    }
}

impl Cast<i32> for i128 {
    open spec fn cast_spec(self) -> i32 {
        self as i32
    }

    fn cast(self) -> i32 {
        #[verifier::truncate] (self as i32)
    }
}

impl Cast<i64> for i128 {
    open spec fn cast_spec(self) -> i64 {
        self as i64
    }

    fn cast(self) -> i64 {
        #[verifier::truncate] (self as i64)
    }
}

} // verus!
