use crate::vectors::Vector2;
use crate::vectors::Vector3;
use crate::vectors::Vector4;
use vstd::prelude::*;

verus! {

/// A vector of any of the supported arities, or a bare scalar, under one type:
/// the dynamic counterpart of the fixed-arity vector types.
#[derive(Clone, Copy, Debug, PartialEq)]
pub enum UnsizedVector<T> {
    Scalar(T),
    Vec2(Vector2<T>),
    Vec3(Vector3<T>),
    Vec4(Vector4<T>),
}

/// What scalars and fixed-arity vectors have in common: each can be wrapped
/// into the dynamic `UnsizedVector` form.
pub trait Vector<T>: Sized {
    /// The `UnsizedVector` variant this value wraps into.
    spec fn unsized_spec(self) -> UnsizedVector<T>;

    fn get_unsized(self) -> (r: UnsizedVector<T>)
        ensures
            r == self.unsized_spec(),
    ;
}

impl<T: Copy> Vector<T> for T {
    open spec fn unsized_spec(self) -> UnsizedVector<T> {
        UnsizedVector::Scalar(self)
    }

    fn get_unsized(self) -> UnsizedVector<T> {
        UnsizedVector::Scalar(self)
    }
}

/// The number of components of a fixed-arity vector type.
pub trait VectorElemCount {
    /// The component count as a mathematical integer.
    spec fn elem_count_spec() -> int;

    fn elem_count() -> (n: usize)
        ensures
            n as int == Self::elem_count_spec(),
    ;
}

/// Component gathering: build a vector of some arity by picking source
/// components by index, in any order and with repetition.
pub trait Swizzable<T>: Sized {
    /// How many components the source vector has.
    spec fn comp_count() -> int;

    /// The gather of two source components, by index.
    spec fn swz2(self, i0: int, i1: int) -> Vector2<T>;

    /// The gather of three source components, by index.
    spec fn swz3(self, i0: int, i1: int, i2: int) -> Vector3<T>;

    /// The gather of four source components, by index.
    spec fn swz4(self, i0: int, i1: int, i2: int, i3: int) -> Vector4<T>;

    fn get4(&self, order: [usize; 4]) -> (r: Vector4<T>)
        requires
            order[0] < Self::comp_count(),
            order[1] < Self::comp_count(),
            order[2] < Self::comp_count(),
            order[3] < Self::comp_count(),
        ensures
            r == self.swz4(order[0] as int, order[1] as int, order[2] as int, order[3] as int),
    ;

    fn get3(&self, order: [usize; 3]) -> (r: Vector3<T>)
        requires
            order[0] < Self::comp_count(),
            order[1] < Self::comp_count(),
            order[2] < Self::comp_count(),
        ensures
            r == self.swz3(order[0] as int, order[1] as int, order[2] as int),
    ;

    fn get2(&self, order: [usize; 2]) -> (r: Vector2<T>)
        requires
            order[0] < Self::comp_count(),
            order[1] < Self::comp_count(),
        ensures
            r == self.swz2(order[0] as int, order[1] as int),
    ;
}

} // verus!
