use crate::types::ScalarArith;
use crate::types::ScalarBits;
use crate::types::ScalarNeg;
use crate::types::SupportedValue;
use crate::types::max_num;
use crate::types::min_num;
use crate::types::quot;
use crate::vector::Swizzable;
use crate::vector::UnsizedVector;
use crate::vector::Vector;
use crate::vector::VectorElemCount;
use super::Vector2;
use super::Vector3;
use vstd::prelude::*;

verus! {

/// A 4-component vector of a single element type, one named field per
/// component, in index order.
#[derive(Clone, Copy, Debug, PartialEq)]
pub struct Vector4<T> {
    pub x: T,
    pub y: T,
    pub z: T,
    pub w: T,
}

/// The named axes of a 4-component vector.
#[derive(Clone, Copy, Debug, PartialEq)]
pub enum Vec4Axis {
    X,
    Y,
    Z,
    W,
}

impl<T> Vector4<T> {
    /// The component at an index: 0 is `x`, 1 is `y`, 2 is `z`, 3 is `w`.
    pub open spec fn index_spec(self, i: int) -> T {
        if i == 0 {
            self.x
        } else if i == 1 {
            self.y
        } else if i == 2 {
            self.z
        } else {
            self.w
        }
    }

    /// The vector with the component at an index replaced.
    pub open spec fn update_spec(self, i: int, v: T) -> Self {
        if i == 0 {
            Vector4 { x: v, y: self.y, z: self.z, w: self.w }
        } else if i == 1 {
            Vector4 { x: self.x, y: v, z: self.z, w: self.w }
        } else if i == 2 {
            Vector4 { x: self.x, y: self.y, z: v, w: self.w }
        } else {
            Vector4 { x: self.x, y: self.y, z: self.z, w: v }
        }
    }

    pub fn new(f1: T, f2: T, f3: T, f4: T) -> (r: Self)
        ensures
            r.x == f1,
            r.y == f2,
            r.z == f3,
            r.w == f4,
    {
        Self { x: f1, y: f2, z: f3, w: f4 }
    }
}

impl<T: Copy> Vector4<T> {
    pub fn get(&self, i: usize) -> (r: T)
        requires
            i < 4,
        ensures
            r == self.index_spec(i as int),
    {
        match i {
            0 => self.x,
            1 => self.y,
            2 => self.z,
            _ => self.w,
        }
    }

    pub fn set(&mut self, i: usize, v: T)
        requires
            i < 4,
        ensures
            *final(self) == old(self).update_spec(i as int, v),
    {
        match i {
            0 => self.x = v,
            1 => self.y = v,
            2 => self.z = v,
            _ => self.w = v,
        }
    }

    /// The component along a named axis.
    pub fn get_axis(&self, axis: Vec4Axis) -> (r: T)
        ensures
            r == (match axis {
                Vec4Axis::X => self.x,
                Vec4Axis::Y => self.y,
                Vec4Axis::Z => self.z,
                Vec4Axis::W => self.w,
            }),
    {
        match axis {
            Vec4Axis::X => self.x,
            Vec4Axis::Y => self.y,
            Vec4Axis::Z => self.z,
            Vec4Axis::W => self.w,
        }
    }
}

impl<T: SupportedValue> Vector4<T> {
    pub open spec fn zero_spec() -> Self {
        Vector4 { x: T::zero_spec(), y: T::zero_spec(), z: T::zero_spec(), w: T::zero_spec() }
    }

    pub open spec fn one_spec() -> Self {
        Vector4 { x: T::one_spec(), y: T::one_spec(), z: T::one_spec(), w: T::one_spec() }
    }

    pub open spec fn unit_x_spec() -> Self {
        Vector4 { x: T::one_spec(), y: T::zero_spec(), z: T::zero_spec(), w: T::zero_spec() }
    }

    pub open spec fn unit_y_spec() -> Self {
        Vector4 { x: T::zero_spec(), y: T::one_spec(), z: T::zero_spec(), w: T::zero_spec() }
    }

    pub open spec fn unit_z_spec() -> Self {
        Vector4 { x: T::zero_spec(), y: T::zero_spec(), z: T::one_spec(), w: T::zero_spec() }
    }

    pub open spec fn unit_w_spec() -> Self {
        Vector4 { x: T::zero_spec(), y: T::zero_spec(), z: T::zero_spec(), w: T::one_spec() }
    }

    /// All components zero.
    pub fn zero() -> (r: Self)
        ensures
            r == Self::zero_spec(),
    {
        Self::new(T::zero(), T::zero(), T::zero(), T::zero())
    }

    /// All components one.
    pub fn one() -> (r: Self)
        ensures
            r == Self::one_spec(),
    {
        Self::new(T::one(), T::one(), T::one(), T::one())
    }

    /// The unit vector along the `x` axis.
    pub fn unit_x() -> (r: Self)
        ensures
            r == Self::unit_x_spec(),
    {
        Self::new(T::one(), T::zero(), T::zero(), T::zero())
    }

    /// The unit vector along the `y` axis.
    pub fn unit_y() -> (r: Self)
        ensures
            r == Self::unit_y_spec(),
    {
        Self::new(T::zero(), T::one(), T::zero(), T::zero())
    }

    /// The unit vector along the `z` axis.
    pub fn unit_z() -> (r: Self)
        ensures
            r == Self::unit_z_spec(),
    {
        Self::new(T::zero(), T::zero(), T::one(), T::zero())
    }

    /// The unit vector along the `w` axis.
    pub fn unit_w() -> (r: Self)
        ensures
            r == Self::unit_w_spec(),
    {
        Self::new(T::zero(), T::zero(), T::zero(), T::one())
    }

    /// The unit vector along a named axis.
    pub fn get_default_axis(axis: Vec4Axis) -> (r: Self)
        ensures
            r == (match axis {
                Vec4Axis::X => Self::unit_x_spec(),
                Vec4Axis::Y => Self::unit_y_spec(),
                Vec4Axis::Z => Self::unit_z_spec(),
                Vec4Axis::W => Self::unit_w_spec(),
            }),
    {
        match axis {
            Vec4Axis::X => Self::unit_x(),
            Vec4Axis::Y => Self::unit_y(),
            Vec4Axis::Z => Self::unit_z(),
            Vec4Axis::W => Self::unit_w(),
        }
    }

    /// Position-wise equality, one boolean per component.
    pub fn elem_eq(&self, other: &Self) -> (r: Vector4<bool>)
        ensures
            r.x == (self.x == other.x),
            r.y == (self.y == other.y),
            r.z == (self.z == other.z),
            r.w == (self.w == other.w),
    {
        Vector4::<bool>::new(self.x.eq_val(other.x), self.y.eq_val(other.y), self.z.eq_val(other.z), self.w.eq_val(other.w))
    }

    /// Position-wise greater-than, one boolean per component.
    pub fn elem_gt(&self, other: &Self) -> (r: Vector4<bool>)
        ensures
            r.x == (self.x.as_num() > other.x.as_num()),
            r.y == (self.y.as_num() > other.y.as_num()),
            r.z == (self.z.as_num() > other.z.as_num()),
            r.w == (self.w.as_num() > other.w.as_num()),
    {
        Vector4::<bool>::new(other.x.lt_val(self.x), other.y.lt_val(self.y), other.z.lt_val(self.z), other.w.lt_val(self.w))
    }

    /// Position-wise less-than, one boolean per component.
    pub fn elem_lt(&self, other: &Self) -> (r: Vector4<bool>)
        ensures
            r.x == (self.x.as_num() < other.x.as_num()),
            r.y == (self.y.as_num() < other.y.as_num()),
            r.z == (self.z.as_num() < other.z.as_num()),
            r.w == (self.w.as_num() < other.w.as_num()),
    {
        Vector4::<bool>::new(self.x.lt_val(other.x), self.y.lt_val(other.y), self.z.lt_val(other.z), self.w.lt_val(other.w))
    }

    /// Position-wise greater-or-equal, one boolean per component.
    pub fn elem_gte(&self, other: &Self) -> (r: Vector4<bool>)
        ensures
            r.x == (self.x.as_num() >= other.x.as_num()),
            r.y == (self.y.as_num() >= other.y.as_num()),
            r.z == (self.z.as_num() >= other.z.as_num()),
            r.w == (self.w.as_num() >= other.w.as_num()),
    {
        Vector4::<bool>::new(other.x.le_val(self.x), other.y.le_val(self.y), other.z.le_val(self.z), other.w.le_val(self.w))
    }

    /// Position-wise less-or-equal, one boolean per component.
    pub fn elem_lte(&self, other: &Self) -> (r: Vector4<bool>)
        ensures
            r.x == (self.x.as_num() <= other.x.as_num()),
            r.y == (self.y.as_num() <= other.y.as_num()),
            r.z == (self.z.as_num() <= other.z.as_num()),
            r.w == (self.w.as_num() <= other.w.as_num()),
    {
        Vector4::<bool>::new(self.x.le_val(other.x), self.y.le_val(other.y), self.z.le_val(other.z), self.w.le_val(other.w))
    }

    pub open spec fn min_spec(self, other: Self) -> Self {
        Vector4 {
            x: min_num(self.x, other.x),
            y: min_num(self.y, other.y),
            z: min_num(self.z, other.z),
            w: min_num(self.w, other.w),
        }
    }

    pub open spec fn max_spec(self, other: Self) -> Self {
        Vector4 {
            x: max_num(self.x, other.x),
            y: max_num(self.y, other.y),
            z: max_num(self.z, other.z),
            w: max_num(self.w, other.w),
        }
    }

    /// The component-wise smaller of two vectors.
    pub fn min(self, other: Self) -> (r: Self)
        ensures
            r == self.min_spec(other),
    {
        Self::new(
            if self.x.le_val(other.x) { self.x } else { other.x },
            if self.y.le_val(other.y) { self.y } else { other.y },
            if self.z.le_val(other.z) { self.z } else { other.z },
            if self.w.le_val(other.w) { self.w } else { other.w },
        )
    }

    /// The component-wise larger of two vectors.
    pub fn max(self, other: Self) -> (r: Self)
        ensures
            r == self.max_spec(other),
    {
        Self::new(
            if other.x.le_val(self.x) { self.x } else { other.x },
            if other.y.le_val(self.y) { self.y } else { other.y },
            if other.z.le_val(self.z) { self.z } else { other.z },
            if other.w.le_val(self.w) { self.w } else { other.w },
        )
    }

    /// Cap to the upper bound first, then floor to the lower bound.
    /// With `min > max` the upper cap wins; no check is made.
    pub fn clamp(self, min: Self, max: Self) -> (r: Self)
        ensures
            r == self.min_spec(max).max_spec(min),
    {
        self.min(max).max(min)
    }
}

impl<T: ScalarArith> Vector4<T> {
    pub open spec fn add_spec(self, other: Self) -> Self {
        Vector4 {
            x: T::from_num(self.x.as_num() + other.x.as_num()),
            y: T::from_num(self.y.as_num() + other.y.as_num()),
            z: T::from_num(self.z.as_num() + other.z.as_num()),
            w: T::from_num(self.w.as_num() + other.w.as_num()),
        }
    }

    pub open spec fn sub_spec(self, other: Self) -> Self {
        Vector4 {
            x: T::from_num(self.x.as_num() - other.x.as_num()),
            y: T::from_num(self.y.as_num() - other.y.as_num()),
            z: T::from_num(self.z.as_num() - other.z.as_num()),
            w: T::from_num(self.w.as_num() - other.w.as_num()),
        }
    }

    pub open spec fn mul_spec(self, other: Self) -> Self {
        Vector4 {
            x: T::from_num(self.x.as_num() * other.x.as_num()),
            y: T::from_num(self.y.as_num() * other.y.as_num()),
            z: T::from_num(self.z.as_num() * other.z.as_num()),
            w: T::from_num(self.w.as_num() * other.w.as_num()),
        }
    }

    pub open spec fn div_spec(self, other: Self) -> Self {
        Vector4 {
            x: T::from_num(quot(self.x.as_num(), other.x.as_num())),
            y: T::from_num(quot(self.y.as_num(), other.y.as_num())),
            z: T::from_num(quot(self.z.as_num(), other.z.as_num())),
            w: T::from_num(quot(self.w.as_num(), other.w.as_num())),
        }
    }

    pub open spec fn add_scalar_spec(self, other: T) -> Self {
        Vector4 {
            x: T::from_num(self.x.as_num() + other.as_num()),
            y: T::from_num(self.y.as_num() + other.as_num()),
            z: T::from_num(self.z.as_num() + other.as_num()),
            w: T::from_num(self.w.as_num() + other.as_num()),
        }
    }

    pub open spec fn sub_scalar_spec(self, other: T) -> Self {
        Vector4 {
            x: T::from_num(self.x.as_num() - other.as_num()),
            y: T::from_num(self.y.as_num() - other.as_num()),
            z: T::from_num(self.z.as_num() - other.as_num()),
            w: T::from_num(self.w.as_num() - other.as_num()),
        }
    }

    pub open spec fn mul_scalar_spec(self, other: T) -> Self {
        Vector4 {
            x: T::from_num(self.x.as_num() * other.as_num()),
            y: T::from_num(self.y.as_num() * other.as_num()),
            z: T::from_num(self.z.as_num() * other.as_num()),
            w: T::from_num(self.w.as_num() * other.as_num()),
        }
    }

    pub open spec fn div_scalar_spec(self, other: T) -> Self {
        Vector4 {
            x: T::from_num(quot(self.x.as_num(), other.as_num())),
            y: T::from_num(quot(self.y.as_num(), other.as_num())),
            z: T::from_num(quot(self.z.as_num(), other.as_num())),
            w: T::from_num(quot(self.w.as_num(), other.as_num())),
        }
    }

    /// Component-wise sum of two vectors.
    pub fn add(self, other: Self) -> (r: Self)
        requires
            T::in_range(self.x.as_num() + other.x.as_num()),
            T::in_range(self.y.as_num() + other.y.as_num()),
            T::in_range(self.z.as_num() + other.z.as_num()),
            T::in_range(self.w.as_num() + other.w.as_num()),
        ensures
            r == self.add_spec(other),
    {
        Self::new(
            self.x.add_val(other.x),
            self.y.add_val(other.y),
            self.z.add_val(other.z),
            self.w.add_val(other.w),
        )
    }

    /// Component-wise difference of two vectors.
    pub fn sub(self, other: Self) -> (r: Self)
        requires
            T::in_range(self.x.as_num() - other.x.as_num()),
            T::in_range(self.y.as_num() - other.y.as_num()),
            T::in_range(self.z.as_num() - other.z.as_num()),
            T::in_range(self.w.as_num() - other.w.as_num()),
        ensures
            r == self.sub_spec(other),
    {
        Self::new(
            self.x.sub_val(other.x),
            self.y.sub_val(other.y),
            self.z.sub_val(other.z),
            self.w.sub_val(other.w),
        )
    }

    /// Component-wise product of two vectors.
    pub fn mul(self, other: Self) -> (r: Self)
        requires
            T::in_range(self.x.as_num() * other.x.as_num()),
            T::in_range(self.y.as_num() * other.y.as_num()),
            T::in_range(self.z.as_num() * other.z.as_num()),
            T::in_range(self.w.as_num() * other.w.as_num()),
        ensures
            r == self.mul_spec(other),
    {
        Self::new(
            self.x.mul_val(other.x),
            self.y.mul_val(other.y),
            self.z.mul_val(other.z),
            self.w.mul_val(other.w),
        )
    }

    /// Component-wise quotient of two vectors, truncating as the
    /// element type's `/` does; every divisor component must be nonzero.
    pub fn div(self, other: Self) -> (r: Self)
        requires
            other.x.as_num() != 0,
            other.y.as_num() != 0,
            other.z.as_num() != 0,
            other.w.as_num() != 0,
            T::in_range(quot(self.x.as_num(), other.x.as_num())),
            T::in_range(quot(self.y.as_num(), other.y.as_num())),
            T::in_range(quot(self.z.as_num(), other.z.as_num())),
            T::in_range(quot(self.w.as_num(), other.w.as_num())),
        ensures
            r == self.div_spec(other),
    {
        Self::new(
            self.x.div_val(other.x),
            self.y.div_val(other.y),
            self.z.div_val(other.z),
            self.w.div_val(other.w),
        )
    }

    /// Component-wise sum with one broadcast scalar.
    pub fn add_scalar(self, other: T) -> (r: Self)
        requires
            T::in_range(self.x.as_num() + other.as_num()),
            T::in_range(self.y.as_num() + other.as_num()),
            T::in_range(self.z.as_num() + other.as_num()),
            T::in_range(self.w.as_num() + other.as_num()),
        ensures
            r == self.add_scalar_spec(other),
    {
        Self::new(
            self.x.add_val(other),
            self.y.add_val(other),
            self.z.add_val(other),
            self.w.add_val(other),
        )
    }

    /// Component-wise difference with one broadcast scalar.
    pub fn sub_scalar(self, other: T) -> (r: Self)
        requires
            T::in_range(self.x.as_num() - other.as_num()),
            T::in_range(self.y.as_num() - other.as_num()),
            T::in_range(self.z.as_num() - other.as_num()),
            T::in_range(self.w.as_num() - other.as_num()),
        ensures
            r == self.sub_scalar_spec(other),
    {
        Self::new(
            self.x.sub_val(other),
            self.y.sub_val(other),
            self.z.sub_val(other),
            self.w.sub_val(other),
        )
    }

    /// Component-wise product with one broadcast scalar.
    pub fn mul_scalar(self, other: T) -> (r: Self)
        requires
            T::in_range(self.x.as_num() * other.as_num()),
            T::in_range(self.y.as_num() * other.as_num()),
            T::in_range(self.z.as_num() * other.as_num()),
            T::in_range(self.w.as_num() * other.as_num()),
        ensures
            r == self.mul_scalar_spec(other),
    {
        Self::new(
            self.x.mul_val(other),
            self.y.mul_val(other),
            self.z.mul_val(other),
            self.w.mul_val(other),
        )
    }

    /// Component-wise quotient by one broadcast nonzero scalar.
    pub fn div_scalar(self, other: T) -> (r: Self)
        requires
            other.as_num() != 0,
            T::in_range(quot(self.x.as_num(), other.as_num())),
            T::in_range(quot(self.y.as_num(), other.as_num())),
            T::in_range(quot(self.z.as_num(), other.as_num())),
            T::in_range(quot(self.w.as_num(), other.as_num())),
        ensures
            r == self.div_scalar_spec(other),
    {
        Self::new(
            self.x.div_val(other),
            self.y.div_val(other),
            self.z.div_val(other),
            self.w.div_val(other),
        )
    }

    /// In-place form of `add`.
    pub fn add_assign(&mut self, other: Self)
        requires
            T::in_range(old(self).x.as_num() + other.x.as_num()),
            T::in_range(old(self).y.as_num() + other.y.as_num()),
            T::in_range(old(self).z.as_num() + other.z.as_num()),
            T::in_range(old(self).w.as_num() + other.w.as_num()),
        ensures
            *final(self) == old(self).add_spec(other),
    {
        let s = *self;
        *self = s.add(other);
    }

    /// In-place form of `sub`.
    pub fn sub_assign(&mut self, other: Self)
        requires
            T::in_range(old(self).x.as_num() - other.x.as_num()),
            T::in_range(old(self).y.as_num() - other.y.as_num()),
            T::in_range(old(self).z.as_num() - other.z.as_num()),
            T::in_range(old(self).w.as_num() - other.w.as_num()),
        ensures
            *final(self) == old(self).sub_spec(other),
    {
        let s = *self;
        *self = s.sub(other);
    }

    /// In-place form of `mul`.
    pub fn mul_assign(&mut self, other: Self)
        requires
            T::in_range(old(self).x.as_num() * other.x.as_num()),
            T::in_range(old(self).y.as_num() * other.y.as_num()),
            T::in_range(old(self).z.as_num() * other.z.as_num()),
            T::in_range(old(self).w.as_num() * other.w.as_num()),
        ensures
            *final(self) == old(self).mul_spec(other),
    {
        let s = *self;
        *self = s.mul(other);
    }

    /// In-place form of `div`.
    pub fn div_assign(&mut self, other: Self)
        requires
            other.x.as_num() != 0,
            other.y.as_num() != 0,
            other.z.as_num() != 0,
            other.w.as_num() != 0,
            T::in_range(quot(old(self).x.as_num(), other.x.as_num())),
            T::in_range(quot(old(self).y.as_num(), other.y.as_num())),
            T::in_range(quot(old(self).z.as_num(), other.z.as_num())),
            T::in_range(quot(old(self).w.as_num(), other.w.as_num())),
        ensures
            *final(self) == old(self).div_spec(other),
    {
        let s = *self;
        *self = s.div(other);
    }

    /// In-place form of `add_scalar`.
    pub fn add_assign_scalar(&mut self, other: T)
        requires
            T::in_range(old(self).x.as_num() + other.as_num()),
            T::in_range(old(self).y.as_num() + other.as_num()),
            T::in_range(old(self).z.as_num() + other.as_num()),
            T::in_range(old(self).w.as_num() + other.as_num()),
        ensures
            *final(self) == old(self).add_scalar_spec(other),
    {
        let s = *self;
        *self = s.add_scalar(other);
    }

    /// In-place form of `sub_scalar`.
    pub fn sub_assign_scalar(&mut self, other: T)
        requires
            T::in_range(old(self).x.as_num() - other.as_num()),
            T::in_range(old(self).y.as_num() - other.as_num()),
            T::in_range(old(self).z.as_num() - other.as_num()),
            T::in_range(old(self).w.as_num() - other.as_num()),
        ensures
            *final(self) == old(self).sub_scalar_spec(other),
    {
        let s = *self;
        *self = s.sub_scalar(other);
    }

    /// In-place form of `mul_scalar`.
    pub fn mul_assign_scalar(&mut self, other: T)
        requires
            T::in_range(old(self).x.as_num() * other.as_num()),
            T::in_range(old(self).y.as_num() * other.as_num()),
            T::in_range(old(self).z.as_num() * other.as_num()),
            T::in_range(old(self).w.as_num() * other.as_num()),
        ensures
            *final(self) == old(self).mul_scalar_spec(other),
    {
        let s = *self;
        *self = s.mul_scalar(other);
    }

    /// In-place form of `div_scalar`.
    pub fn div_assign_scalar(&mut self, other: T)
        requires
            other.as_num() != 0,
            T::in_range(quot(old(self).x.as_num(), other.as_num())),
            T::in_range(quot(old(self).y.as_num(), other.as_num())),
            T::in_range(quot(old(self).z.as_num(), other.as_num())),
            T::in_range(quot(old(self).w.as_num(), other.as_num())),
        ensures
            *final(self) == old(self).div_scalar_spec(other),
    {
        let s = *self;
        *self = s.div_scalar(other);
    }

    pub open spec fn dot_spec(self, other: Self) -> T {
        T::from_num(
            self.x.as_num() * other.x.as_num() + self.y.as_num() * other.y.as_num() + self.z.as_num() * other.z.as_num() + self.w.as_num() * other.w.as_num(),
        )
    }

    /// The dot product: the sum over the component-wise products.
    pub fn dot(self, other: Self) -> (r: T)
        requires
            T::in_range(self.x.as_num() * other.x.as_num()),
            T::in_range(self.y.as_num() * other.y.as_num()),
            T::in_range(self.z.as_num() * other.z.as_num()),
            T::in_range(self.w.as_num() * other.w.as_num()),
            T::in_range(self.x.as_num() * other.x.as_num() + self.y.as_num() * other.y.as_num()),
            T::in_range(self.x.as_num() * other.x.as_num() + self.y.as_num() * other.y.as_num() + self.z.as_num() * other.z.as_num()),
            T::in_range(self.x.as_num() * other.x.as_num() + self.y.as_num() * other.y.as_num() + self.z.as_num() * other.z.as_num() + self.w.as_num() * other.w.as_num()),
        ensures
            r == self.dot_spec(other),
    {
        let p0 = self.x.mul_val(other.x);
        let p1 = self.y.mul_val(other.y);
        let p2 = self.z.mul_val(other.z);
        let p3 = self.w.mul_val(other.w);
        proof {
            T::from_to_num(self.x.as_num() * other.x.as_num());
            T::from_to_num(self.y.as_num() * other.y.as_num());
            T::from_to_num(self.z.as_num() * other.z.as_num());
            T::from_to_num(self.w.as_num() * other.w.as_num());
            T::from_to_num(self.x.as_num() * other.x.as_num() + self.y.as_num() * other.y.as_num());
            T::from_to_num(self.x.as_num() * other.x.as_num() + self.y.as_num() * other.y.as_num() + self.z.as_num() * other.z.as_num());
        }
        let s1 = p0.add_val(p1);
        let s2 = s1.add_val(p2);
        s2.add_val(p3)
    }

    /// The squared length: the dot product of the vector with itself.
    pub fn length_sqrt(self) -> (r: T)
        requires
            T::in_range(self.x.as_num() * self.x.as_num()),
            T::in_range(self.y.as_num() * self.y.as_num()),
            T::in_range(self.z.as_num() * self.z.as_num()),
            T::in_range(self.w.as_num() * self.w.as_num()),
            T::in_range(self.x.as_num() * self.x.as_num() + self.y.as_num() * self.y.as_num()),
            T::in_range(self.x.as_num() * self.x.as_num() + self.y.as_num() * self.y.as_num() + self.z.as_num() * self.z.as_num()),
            T::in_range(self.x.as_num() * self.x.as_num() + self.y.as_num() * self.y.as_num() + self.z.as_num() * self.z.as_num() + self.w.as_num() * self.w.as_num()),
        ensures
            r == self.dot_spec(self),
    {
        self.dot(self)
    }

    pub open spec fn lerp_spec(self, other: Self, t: T) -> Self {
        Vector4 {
            x: T::from_num(self.x.as_num() + (other.x.as_num() - self.x.as_num()) * t.as_num()),
            y: T::from_num(self.y.as_num() + (other.y.as_num() - self.y.as_num()) * t.as_num()),
            z: T::from_num(self.z.as_num() + (other.z.as_num() - self.z.as_num()) * t.as_num()),
            w: T::from_num(self.w.as_num() + (other.w.as_num() - self.w.as_num()) * t.as_num()),
        }
    }

    /// Linear interpolation `self + (other - self) * t`, unclamped:
    /// `t` outside the unit range extrapolates.
    pub fn lerp(self, other: Self, t: T) -> (r: Self)
        requires
            T::in_range(other.x.as_num() - self.x.as_num()),
            T::in_range(other.y.as_num() - self.y.as_num()),
            T::in_range(other.z.as_num() - self.z.as_num()),
            T::in_range(other.w.as_num() - self.w.as_num()),
            T::in_range((other.x.as_num() - self.x.as_num()) * t.as_num()),
            T::in_range((other.y.as_num() - self.y.as_num()) * t.as_num()),
            T::in_range((other.z.as_num() - self.z.as_num()) * t.as_num()),
            T::in_range((other.w.as_num() - self.w.as_num()) * t.as_num()),
            T::in_range(self.x.as_num() + (other.x.as_num() - self.x.as_num()) * t.as_num()),
            T::in_range(self.y.as_num() + (other.y.as_num() - self.y.as_num()) * t.as_num()),
            T::in_range(self.z.as_num() + (other.z.as_num() - self.z.as_num()) * t.as_num()),
            T::in_range(self.w.as_num() + (other.w.as_num() - self.w.as_num()) * t.as_num()),
        ensures
            r == self.lerp_spec(other, t),
    {
        let d = other.sub(self);
        proof {
            T::from_to_num(other.x.as_num() - self.x.as_num());
            T::from_to_num(other.y.as_num() - self.y.as_num());
            T::from_to_num(other.z.as_num() - self.z.as_num());
            T::from_to_num(other.w.as_num() - self.w.as_num());
        }
        let m = d.mul_scalar(t);
        proof {
            T::from_to_num((other.x.as_num() - self.x.as_num()) * t.as_num());
            T::from_to_num((other.y.as_num() - self.y.as_num()) * t.as_num());
            T::from_to_num((other.z.as_num() - self.z.as_num()) * t.as_num());
            T::from_to_num((other.w.as_num() - self.w.as_num()) * t.as_num());
        }
        self.add(m)
    }
}

impl<T: ScalarNeg> Vector4<T> {
    pub open spec fn neg_spec(self) -> Self {
        Vector4 {
            x: T::from_num(-self.x.as_num()),
            y: T::from_num(-self.y.as_num()),
            z: T::from_num(-self.z.as_num()),
            w: T::from_num(-self.w.as_num()),
        }
    }

    /// Component-wise negation.
    pub fn neg(self) -> (r: Self)
        requires
            T::in_range(-self.x.as_num()),
            T::in_range(-self.y.as_num()),
            T::in_range(-self.z.as_num()),
            T::in_range(-self.w.as_num()),
        ensures
            r == self.neg_spec(),
    {
        Self::new(self.x.neg_val(), self.y.neg_val(), self.z.neg_val(), self.w.neg_val())
    }
}

impl<T: ScalarBits> Vector4<T> {
    /// Component-wise bitwise AND.
    pub fn bitand(self, other: Self) -> (r: Self)
        ensures
            r.x == self.x.and_spec(other.x),
            r.y == self.y.and_spec(other.y),
            r.z == self.z.and_spec(other.z),
            r.w == self.w.and_spec(other.w),
    {
        Self::new(
            self.x.and_val(other.x),
            self.y.and_val(other.y),
            self.z.and_val(other.z),
            self.w.and_val(other.w),
        )
    }

    /// Component-wise bitwise OR.
    pub fn bitor(self, other: Self) -> (r: Self)
        ensures
            r.x == self.x.or_spec(other.x),
            r.y == self.y.or_spec(other.y),
            r.z == self.z.or_spec(other.z),
            r.w == self.w.or_spec(other.w),
    {
        Self::new(
            self.x.or_val(other.x),
            self.y.or_val(other.y),
            self.z.or_val(other.z),
            self.w.or_val(other.w),
        )
    }

    /// Component-wise bitwise XOR.
    pub fn bitxor(self, other: Self) -> (r: Self)
        ensures
            r.x == self.x.xor_spec(other.x),
            r.y == self.y.xor_spec(other.y),
            r.z == self.z.xor_spec(other.z),
            r.w == self.w.xor_spec(other.w),
    {
        Self::new(
            self.x.xor_val(other.x),
            self.y.xor_val(other.y),
            self.z.xor_val(other.z),
            self.w.xor_val(other.w),
        )
    }

    /// Component-wise bitwise NOT.
    pub fn bitnot(self) -> (r: Self)
        ensures
            r.x == self.x.not_spec(),
            r.y == self.y.not_spec(),
            r.z == self.z.not_spec(),
            r.w == self.w.not_spec(),
    {
        Self::new(self.x.not_val(), self.y.not_val(), self.z.not_val(), self.w.not_val())
    }
}

impl Vector4<bool> {
    /// True exactly when every component is true (the conjunction
    /// starts from `true`, the neutral seed).
    pub fn all(&self) -> (r: bool)
        ensures
            r == (self.x && self.y && self.z && self.w),
    {
        self.x && self.y && self.z && self.w
    }

    /// True exactly when at least one component is true (the
    /// disjunction starts from `false`, the neutral seed).
    pub fn any(&self) -> (r: bool)
        ensures
            r == (self.x || self.y || self.z || self.w),
    {
        self.x || self.y || self.z || self.w
    }

    /// Position-wise choice: where the mask component is true the
    /// component of `first` is taken, elsewhere that of `second`.
    pub fn select<T: Copy>(&self, first: &Vector4<T>, second: &Vector4<T>) -> (r: Vector4<T>)
        ensures
            r.x == (if self.x { first.x } else { second.x }),
            r.y == (if self.y { first.y } else { second.y }),
            r.z == (if self.z { first.z } else { second.z }),
            r.w == (if self.w { first.w } else { second.w }),
    {
        Vector4::new(if self.x { first.x } else { second.x }, if self.y { first.y } else { second.y }, if self.z { first.z } else { second.z }, if self.w { first.w } else { second.w })
    }
}

impl<T: Copy> Swizzable<T> for Vector4<T> {
    open spec fn comp_count() -> int {
        4
    }

    open spec fn swz2(self, i0: int, i1: int) -> Vector2<T> {
        Vector2 { x: self.index_spec(i0), y: self.index_spec(i1) }
    }

    open spec fn swz3(self, i0: int, i1: int, i2: int) -> Vector3<T> {
        Vector3 { x: self.index_spec(i0), y: self.index_spec(i1), z: self.index_spec(i2) }
    }

    open spec fn swz4(self, i0: int, i1: int, i2: int, i3: int) -> Vector4<T> {
        Vector4 {
            x: self.index_spec(i0),
            y: self.index_spec(i1),
            z: self.index_spec(i2),
            w: self.index_spec(i3),
        }
    }

    fn get4(&self, order: [usize; 4]) -> Vector4<T> {
        Vector4::new(self.get(order[0]), self.get(order[1]), self.get(order[2]), self.get(order[3]))
    }

    fn get3(&self, order: [usize; 3]) -> Vector3<T> {
        Vector3::new(self.get(order[0]), self.get(order[1]), self.get(order[2]))
    }

    fn get2(&self, order: [usize; 2]) -> Vector2<T> {
        Vector2::new(self.get(order[0]), self.get(order[1]))
    }
}

impl<T> VectorElemCount for Vector4<T> {
    open spec fn elem_count_spec() -> int {
        4
    }

    fn elem_count() -> usize {
        4
    }
}

impl<T> Vector<T> for Vector4<T> {
    open spec fn unsized_spec(self) -> UnsizedVector<T> {
        UnsizedVector::Vec4(self)
    }

    fn get_unsized(self) -> UnsizedVector<T> {
        UnsizedVector::Vec4(self)
    }
}

impl<T: SupportedValue> Default for Vector4<T> {
    /// The zero vector.
    fn default() -> (r: Self)
        ensures
            r == Self::zero_spec(),
    {
        Self::zero()
    }
}

} // verus!
