use crate::quaternion::Quaternion;
use crate::types::ScalarArith;
use crate::types::SupportedValue;
use crate::types::abs_num;
use crate::types::quot;
use crate::vector::Swizzable;
use crate::vectors::Vector3;
use crate::vectors::Vector4;
use vstd::prelude::*;

verus! {

/// The largest entry magnitude the i128 matrix algorithms accept: it leaves
/// enough headroom that every intermediate of the cofactor expansion fits.
pub const MAT_BOUND: i128 = 1000000000;

/// Whether every component of a 4-vector is within the symmetric bound.
pub open spec fn vec4_bounded(v: Vector4<i128>, b: int) -> bool {
    &&& -b <= v.x <= b
    &&& -b <= v.y <= b
    &&& -b <= v.z <= b
    &&& -b <= v.w <= b
}

/// Whether every component of a 3-vector is within the symmetric bound.
pub open spec fn vec3_bounded(v: Vector3<i128>, b: int) -> bool {
    &&& -b <= v.x <= b
    &&& -b <= v.y <= b
    &&& -b <= v.z <= b
}

/// A product of two bounded factors is bounded by the product of the bounds.
pub proof fn lemma_mul_bound(a: int, b: int, ba: int, bb: int)
    requires
        -ba <= a <= ba,
        -bb <= b <= bb,
        0 <= ba,
        0 <= bb,
    ensures
        -(ba * bb) <= a * b <= ba * bb,
{
    assert(-(ba * bb) <= a * b <= ba * bb) by (nonlinear_arith)
        requires
            -ba <= a <= ba,
            -bb <= b <= bb,
            0 <= ba,
            0 <= bb,
    ;
}

/// A truncating quotient is no larger in magnitude than its dividend.
pub proof fn lemma_quot_bound(a: int, b: int)
    requires
        b != 0,
    ensures
        abs_num(quot(a, b)) <= abs_num(a),
{
    let q = abs_num(a) / abs_num(b);
    vstd::arithmetic::div_mod::lemma_div_pos_is_pos(abs_num(a), abs_num(b));
    vstd::arithmetic::div_mod::lemma_div_is_ordered_by_denominator(abs_num(a), 1, abs_num(b));
    vstd::arithmetic::div_mod::lemma_div_basics(abs_num(a));
}

/// A 4x4 matrix: four 4-component row vectors of one element type.
#[derive(Clone, Copy, Debug, PartialEq)]
pub struct Matrix4x4<T> {
    pub r0: Vector4<T>,
    pub r1: Vector4<T>,
    pub r2: Vector4<T>,
    pub r3: Vector4<T>,
}

impl<T> Matrix4x4<T> {
    /// The row at an index, 0 through 3.
    pub open spec fn row(self, i: int) -> Vector4<T> {
        if i == 0 {
            self.r0
        } else if i == 1 {
            self.r1
        } else if i == 2 {
            self.r2
        } else {
            self.r3
        }
    }

    /// The entry in row `r`, column `c`.
    pub open spec fn entry(self, r: int, c: int) -> T {
        self.row(r).index_spec(c)
    }

    /// The entry at a flat index in row-major order, 0 through 15.
    pub open spec fn at(self, k: int) -> T {
        self.entry(k / 4, k % 4)
    }

    /// A matrix from its four rows, top to bottom.
    pub fn new(vec1: Vector4<T>, vec2: Vector4<T>, vec3: Vector4<T>, vec4: Vector4<T>) -> (r: Self)
        ensures
            r.r0 == vec1,
            r.r1 == vec2,
            r.r2 == vec3,
            r.r3 == vec4,
    {
        Matrix4x4 { r0: vec1, r1: vec2, r2: vec3, r3: vec4 }
    }
}

impl<T: Copy> Matrix4x4<T> {
    /// A borrow of the row at an index.
    pub fn get_vec(&self, n: usize) -> (r: &Vector4<T>)
        requires
            n < 4,
        ensures
            *r == self.row(n as int),
    {
        match n {
            0 => &self.r0,
            1 => &self.r1,
            2 => &self.r2,
            _ => &self.r3,
        }
    }

    /// A mutable borrow of the row at an index; the other rows keep their
    /// values.
    pub fn get_vec_mut(&mut self, n: usize) -> (r: &mut Vector4<T>)
        requires
            n < 4,
        ensures
            *r == old(self).row(n as int),
            n == 0 ==> *final(self) == (Matrix4x4 { r0: *final(r), r1: old(self).r1, r2: old(self).r2, r3: old(self).r3 }),
            n == 1 ==> *final(self) == (Matrix4x4 { r0: old(self).r0, r1: *final(r), r2: old(self).r2, r3: old(self).r3 }),
            n == 2 ==> *final(self) == (Matrix4x4 { r0: old(self).r0, r1: old(self).r1, r2: *final(r), r3: old(self).r3 }),
            n == 3 ==> *final(self) == (Matrix4x4 { r0: old(self).r0, r1: old(self).r1, r2: old(self).r2, r3: *final(r) }),
    {
        match n {
            0 => &mut self.r0,
            1 => &mut self.r1,
            2 => &mut self.r2,
            _ => &mut self.r3,
        }
    }

    /// The entry at a flat row-major index, 0 through 15.
    pub fn get_elem(&self, i: usize) -> (r: T)
        requires
            i < 16,
        ensures
            r == self.at(i as int),
    {
        self.get_vec(i / 4).get(i % 4)
    }

    /// The matrix with the row at an index replaced.
    pub open spec fn set_row_spec(self, i: int, row: Vector4<T>) -> Self {
        if i == 0 {
            Matrix4x4 { r0: row, r1: self.r1, r2: self.r2, r3: self.r3 }
        } else if i == 1 {
            Matrix4x4 { r0: self.r0, r1: row, r2: self.r2, r3: self.r3 }
        } else if i == 2 {
            Matrix4x4 { r0: self.r0, r1: self.r1, r2: row, r3: self.r3 }
        } else {
            Matrix4x4 { r0: self.r0, r1: self.r1, r2: self.r2, r3: row }
        }
    }

    /// Replace the entry at a flat row-major index; every other entry keeps
    /// its value.
    pub fn set_elem(&mut self, i: usize, v: T)
        requires
            i < 16,
        ensures
            *final(self) == old(self).set_row_spec(
                i as int / 4,
                old(self).row(i as int / 4).update_spec(i as int % 4, v),
            ),
    {
        let r = self.get_vec_mut(i / 4);
        r.set(i % 4, v);
    }

    /// The matrix with entry (r, c) moved to (c, r), for all entries.
    pub open spec fn transpose_spec(self) -> Self {
        Matrix4x4 {
            r0: Vector4 { x: self.r0.x, y: self.r1.x, z: self.r2.x, w: self.r3.x },
            r1: Vector4 { x: self.r0.y, y: self.r1.y, z: self.r2.y, w: self.r3.y },
            r2: Vector4 { x: self.r0.z, y: self.r1.z, z: self.r2.z, w: self.r3.z },
            r3: Vector4 { x: self.r0.w, y: self.r1.w, z: self.r2.w, w: self.r3.w },
        }
    }

    /// The transpose, as a new matrix.
    pub fn transposed(&self) -> (r: Self)
        ensures
            r == self.transpose_spec(),
    {
        Matrix4x4::new(
            Vector4::new(self.r0.x, self.r1.x, self.r2.x, self.r3.x),
            Vector4::new(self.r0.y, self.r1.y, self.r2.y, self.r3.y),
            Vector4::new(self.r0.z, self.r1.z, self.r2.z, self.r3.z),
            Vector4::new(self.r0.w, self.r1.w, self.r2.w, self.r3.w),
        )
    }

    /// Transpose in place.
    pub fn transpose(&mut self)
        ensures
            *final(self) == old(self).transpose_spec(),
    {
        let s = *self;
        *self = s.transposed();
    }
}

impl<T: SupportedValue> Matrix4x4<T> {
    /// The identity: the four unit basis vectors as rows.
    pub open spec fn identity_spec() -> Self {
        Matrix4x4 {
            r0: Vector4::unit_x_spec(),
            r1: Vector4::unit_y_spec(),
            r2: Vector4::unit_z_spec(),
            r3: Vector4::unit_w_spec(),
        }
    }

    /// The identity matrix.
    pub fn identity() -> (r: Self)
        ensures
            r == Self::identity_spec(),
    {
        Matrix4x4::new(
            Vector4::unit_x(),
            Vector4::unit_y(),
            Vector4::unit_z(),
            Vector4::unit_w(),
        )
    }

    pub open spec fn from_translation_spec(position: Vector3<T>) -> Self {
        Matrix4x4 {
            r0: Vector4::unit_x_spec(),
            r1: Vector4::unit_y_spec(),
            r2: Vector4::unit_z_spec(),
            r3: Vector4 { x: position.x, y: position.y, z: position.z, w: T::one_spec() },
        }
    }

    /// A translation: the identity with the offset as the last row.
    pub fn from_translation(position: Vector3<T>) -> (r: Self)
        ensures
            r == Self::from_translation_spec(position),
    {
        Matrix4x4::new(
            Vector4::unit_x(),
            Vector4::unit_y(),
            Vector4::unit_z(),
            Vector4::new(position.x, position.y, position.z, T::one()),
        )
    }

    pub open spec fn from_scale_spec(scale: Vector3<T>) -> Self {
        Matrix4x4 {
            r0: Vector4 { x: scale.x, y: T::zero_spec(), z: T::zero_spec(), w: T::zero_spec() },
            r1: Vector4 { x: T::zero_spec(), y: scale.y, z: T::zero_spec(), w: T::zero_spec() },
            r2: Vector4 { x: T::zero_spec(), y: T::zero_spec(), z: scale.z, w: T::zero_spec() },
            r3: Vector4::unit_w_spec(),
        }
    }

    /// A scale: the factors on the diagonal, 1 in the corner.
    pub fn from_scale(scale: Vector3<T>) -> (r: Self)
        ensures
            r == Self::from_scale_spec(scale),
    {
        Matrix4x4::new(
            Vector4::new(scale.x, T::zero(), T::zero(), T::zero()),
            Vector4::new(T::zero(), scale.y, T::zero(), T::zero()),
            Vector4::new(T::zero(), T::zero(), scale.z, T::zero()),
            Vector4::unit_w(),
        )
    }
}

/// A product of three factors within `MAT_BOUND`, with its bound.
fn tp(a: i128, b: i128, c: i128) -> (r: i128)
    requires
        -MAT_BOUND <= a <= MAT_BOUND,
        -MAT_BOUND <= b <= MAT_BOUND,
        -MAT_BOUND <= c <= MAT_BOUND,
    ensures
        r as int == a * b * c,
        -(MAT_BOUND * MAT_BOUND * MAT_BOUND) <= r as int <= MAT_BOUND * MAT_BOUND * MAT_BOUND,
{
    proof {
        lemma_mul_bound(a as int, b as int, MAT_BOUND as int, MAT_BOUND as int);
        lemma_mul_bound(a * b, c as int, MAT_BOUND * MAT_BOUND, MAT_BOUND as int);
    }
    a * b * c
}

/// A dot product of two rows within `MAT_BOUND`, exact and bounded.
fn row_dot(a: Vector4<i128>, b: Vector4<i128>) -> (r: i128)
    requires
        vec4_bounded(a, MAT_BOUND as int),
        vec4_bounded(b, MAT_BOUND as int),
    ensures
        r as int == a.x * b.x + a.y * b.y + a.z * b.z + a.w * b.w,
        -(4 * MAT_BOUND * MAT_BOUND) <= r as int <= 4 * MAT_BOUND * MAT_BOUND,
{
    proof {
        lemma_mul_bound(a.x as int, b.x as int, MAT_BOUND as int, MAT_BOUND as int);
        lemma_mul_bound(a.y as int, b.y as int, MAT_BOUND as int, MAT_BOUND as int);
        lemma_mul_bound(a.z as int, b.z as int, MAT_BOUND as int, MAT_BOUND as int);
        lemma_mul_bound(a.w as int, b.w as int, MAT_BOUND as int, MAT_BOUND as int);
    }
    a.x * b.x + a.y * b.y + a.z * b.z + a.w * b.w
}

/// A truncating quotient of two machine values, exact per `quot`.
fn scale_entry(a: i128, det: i128) -> (r: i128)
    requires
        det != 0,
        i128::MIN < a,
    ensures
        r as int == quot(a as int, det as int),
{
    proof {
        lemma_quot_bound(a as int, det as int);
    }
    a.div_val(det)
}

/// A product of two bounded machine values, exact and bounded.
fn det_term(m: i128, a: i128) -> (r: i128)
    requires
        -MAT_BOUND <= m <= MAT_BOUND,
        -(6 * MAT_BOUND * MAT_BOUND * MAT_BOUND) <= a <= 6 * MAT_BOUND * MAT_BOUND * MAT_BOUND,
    ensures
        r as int == m * a,
        -(6 * MAT_BOUND * MAT_BOUND * MAT_BOUND * MAT_BOUND) <= r as int
            <= 6 * MAT_BOUND * MAT_BOUND * MAT_BOUND * MAT_BOUND,
{
    proof {
        lemma_mul_bound(m as int, a as int, MAT_BOUND as int, 6 * MAT_BOUND * MAT_BOUND * MAT_BOUND);
    }
    m * a
}

impl Matrix4x4<i128> {
    /// Whether every entry is within the symmetric bound.
    pub open spec fn bounded(self, b: int) -> bool {
        &&& vec4_bounded(self.r0, b)
        &&& vec4_bounded(self.r1, b)
        &&& vec4_bounded(self.r2, b)
        &&& vec4_bounded(self.r3, b)
    }

    /// The adjugate entry at a flat index: the classical cofactor
    /// expansion of the 4x4 inverse, six signed triple products each.
    pub open spec fn adj_entry(self, k: int) -> int {
        let m0 = self.r0.x as int;
        let m1 = self.r0.y as int;
        let m2 = self.r0.z as int;
        let m3 = self.r0.w as int;
        let m4 = self.r1.x as int;
        let m5 = self.r1.y as int;
        let m6 = self.r1.z as int;
        let m7 = self.r1.w as int;
        let m8 = self.r2.x as int;
        let m9 = self.r2.y as int;
        let m10 = self.r2.z as int;
        let m11 = self.r2.w as int;
        let m12 = self.r3.x as int;
        let m13 = self.r3.y as int;
        let m14 = self.r3.z as int;
        let m15 = self.r3.w as int;
        if k == 0 {
            m5 * m10 * m15 + m9 * m7 * m14 + m13 * m6 * m11 - m5 * m11 * m14 - m9 * m6 * m15 - m13 * m7 * m10
        } else if k == 1 {
            m1 * m11 * m14 + m9 * m2 * m15 + m13 * m3 * m10 - m1 * m10 * m15 - m9 * m3 * m14 - m13 * m2 * m11
        } else if k == 2 {
            m1 * m6 * m15 + m5 * m3 * m14 + m13 * m2 * m7 - m1 * m7 * m14 - m5 * m2 * m15 - m13 * m3 * m6
        } else if k == 3 {
            m1 * m7 * m10 + m5 * m2 * m11 + m9 * m3 * m6 - m1 * m6 * m11 - m5 * m3 * m10 - m9 * m2 * m7
        } else if k == 4 {
            m4 * m11 * m14 + m8 * m6 * m15 + m12 * m7 * m10 - m4 * m10 * m15 - m8 * m7 * m14 - m12 * m6 * m11
        } else if k == 5 {
            m0 * m10 * m15 + m8 * m3 * m14 + m12 * m2 * m11 - m0 * m11 * m14 - m8 * m2 * m15 - m12 * m3 * m10
        } else if k == 6 {
            m0 * m7 * m14 + m4 * m2 * m15 + m12 * m3 * m6 - m0 * m6 * m15 - m4 * m3 * m14 - m12 * m2 * m7
        } else if k == 7 {
            m0 * m6 * m11 + m4 * m3 * m10 + m8 * m2 * m7 - m0 * m7 * m10 - m4 * m2 * m11 - m8 * m3 * m6
        } else if k == 8 {
            m4 * m9 * m15 + m8 * m7 * m13 + m12 * m5 * m11 - m4 * m11 * m13 - m8 * m5 * m15 - m12 * m7 * m9
        } else if k == 9 {
            m0 * m11 * m13 + m8 * m1 * m15 + m12 * m3 * m9 - m0 * m9 * m15 - m8 * m3 * m13 - m12 * m1 * m11
        } else if k == 10 {
            m0 * m5 * m15 + m4 * m3 * m13 + m12 * m1 * m7 - m0 * m7 * m13 - m4 * m1 * m15 - m12 * m3 * m5
        } else if k == 11 {
            m0 * m7 * m9 + m4 * m1 * m11 + m8 * m3 * m5 - m0 * m5 * m11 - m4 * m3 * m9 - m8 * m1 * m7
        } else if k == 12 {
            m4 * m10 * m13 + m8 * m5 * m14 + m12 * m6 * m9 - m4 * m9 * m14 - m8 * m6 * m13 - m12 * m5 * m10
        } else if k == 13 {
            m0 * m9 * m14 + m8 * m2 * m13 + m12 * m1 * m10 - m0 * m10 * m13 - m8 * m1 * m14 - m12 * m2 * m9
        } else if k == 14 {
            m0 * m6 * m13 + m4 * m1 * m14 + m12 * m2 * m5 - m0 * m5 * m14 - m4 * m2 * m13 - m12 * m1 * m6
        } else {
            m0 * m5 * m10 + m4 * m2 * m9 + m8 * m1 * m6 - m0 * m6 * m9 - m4 * m1 * m10 - m8 * m2 * m5
        }
    }

    /// The determinant: the first row against its four adjugate entries.
    pub open spec fn det_of(self) -> int {
        (self.r0.x as int) * self.adj_entry(0) + (self.r0.y as int) * self.adj_entry(4)
            + (self.r0.z as int) * self.adj_entry(8) + (self.r0.w as int) * self.adj_entry(12)
    }

    /// The inverse when the determinant is nonzero: every adjugate entry
    /// divided (truncating) by the determinant. Exact whenever the
    /// determinant divides each adjugate entry, in particular when it is 1.
    pub open spec fn inverse_spec(self) -> Self {
        Matrix4x4 {
            r0: Vector4 { x: quot(self.adj_entry(0), self.det_of()) as i128, y: quot(self.adj_entry(1), self.det_of()) as i128, z: quot(self.adj_entry(2), self.det_of()) as i128, w: quot(self.adj_entry(3), self.det_of()) as i128, },
            r1: Vector4 { x: quot(self.adj_entry(4), self.det_of()) as i128, y: quot(self.adj_entry(5), self.det_of()) as i128, z: quot(self.adj_entry(6), self.det_of()) as i128, w: quot(self.adj_entry(7), self.det_of()) as i128, },
            r2: Vector4 { x: quot(self.adj_entry(8), self.det_of()) as i128, y: quot(self.adj_entry(9), self.det_of()) as i128, z: quot(self.adj_entry(10), self.det_of()) as i128, w: quot(self.adj_entry(11), self.det_of()) as i128, },
            r3: Vector4 { x: quot(self.adj_entry(12), self.det_of()) as i128, y: quot(self.adj_entry(13), self.det_of()) as i128, z: quot(self.adj_entry(14), self.det_of()) as i128, w: quot(self.adj_entry(15), self.det_of()) as i128, },
        }
    }

    /// The product entry in output row `x`, component `y`: the dot of column
    /// `y` of `self` with row `x` of `other` (the row-major storage makes the
    /// left operand's columns the transient vectors of the product).
    pub open spec fn mul_entry(self, other: Self, x: int, y: int) -> int {
        (self.entry(0, y) as int) * (other.entry(x, 0) as int)
            + (self.entry(1, y) as int) * (other.entry(x, 1) as int)
            + (self.entry(2, y) as int) * (other.entry(x, 2) as int)
            + (self.entry(3, y) as int) * (other.entry(x, 3) as int)
    }

    pub open spec fn mul_spec(self, other: Self) -> Self {
        Matrix4x4 {
            r0: Vector4 { x: self.mul_entry(other, 0, 0) as i128, y: self.mul_entry(other, 0, 1) as i128, z: self.mul_entry(other, 0, 2) as i128, w: self.mul_entry(other, 0, 3) as i128, },
            r1: Vector4 { x: self.mul_entry(other, 1, 0) as i128, y: self.mul_entry(other, 1, 1) as i128, z: self.mul_entry(other, 1, 2) as i128, w: self.mul_entry(other, 1, 3) as i128, },
            r2: Vector4 { x: self.mul_entry(other, 2, 0) as i128, y: self.mul_entry(other, 2, 1) as i128, z: self.mul_entry(other, 2, 2) as i128, w: self.mul_entry(other, 2, 3) as i128, },
            r3: Vector4 { x: self.mul_entry(other, 3, 0) as i128, y: self.mul_entry(other, 3, 1) as i128, z: self.mul_entry(other, 3, 2) as i128, w: self.mul_entry(other, 3, 3) as i128, },
        }
    }

    /// The matrix product, in the storage convention of `mul_entry`.
    pub fn mul_mat4x4(&self, other: Matrix4x4<i128>) -> (r: Self)
        requires
            self.bounded(MAT_BOUND as int),
            other.bounded(MAT_BOUND as int),
        ensures
            r == self.mul_spec(other),
    {
        let cols = self.transposed();
        Matrix4x4::new(
            Vector4::new(
                row_dot(cols.r0, other.r0),
                row_dot(cols.r1, other.r0),
                row_dot(cols.r2, other.r0),
                row_dot(cols.r3, other.r0),
            ),
            Vector4::new(
                row_dot(cols.r0, other.r1),
                row_dot(cols.r1, other.r1),
                row_dot(cols.r2, other.r1),
                row_dot(cols.r3, other.r1),
            ),
            Vector4::new(
                row_dot(cols.r0, other.r2),
                row_dot(cols.r1, other.r2),
                row_dot(cols.r2, other.r2),
                row_dot(cols.r3, other.r2),
            ),
            Vector4::new(
                row_dot(cols.r0, other.r3),
                row_dot(cols.r1, other.r3),
                row_dot(cols.r2, other.r3),
                row_dot(cols.r3, other.r3),
            ),
        )
    }

    pub open spec fn mul_vector_spec(self, vector: Vector4<i128>) -> Vector4<i128> {
        Vector4 {
            x: (self.r0.x * vector.x + self.r0.y * vector.y + self.r0.z * vector.z
                + self.r0.w * vector.w) as i128,
            y: (self.r1.x * vector.x + self.r1.y * vector.y + self.r1.z * vector.z
                + self.r1.w * vector.w) as i128,
            z: (self.r2.x * vector.x + self.r2.y * vector.y + self.r2.z * vector.z
                + self.r2.w * vector.w) as i128,
            w: (self.r3.x * vector.x + self.r3.y * vector.y + self.r3.z * vector.z
                + self.r3.w * vector.w) as i128,
        }
    }

    /// Apply the matrix to a homogeneous 4-vector: one dot product per row.
    pub fn mul_vector(&self, vector: &Vector4<i128>) -> (r: Vector4<i128>)
        requires
            self.bounded(MAT_BOUND as int),
            vec4_bounded(*vector, MAT_BOUND as int),
        ensures
            r == self.mul_vector_spec(*vector),
    {
        Vector4::new(
            row_dot(self.r0, *vector),
            row_dot(self.r1, *vector),
            row_dot(self.r2, *vector),
            row_dot(self.r3, *vector),
        )
    }

    pub open spec fn mul_point_spec(self, point: Vector3<i128>) -> Vector3<i128> {
        let v = Vector4 { x: point.x, y: point.y, z: point.z, w: 1i128 };
        let r = self.mul_vector_spec(v);
        Vector3 { x: r.x, y: r.y, z: r.z }
    }

    /// Apply the matrix to a 3-point: the point is extended with `w == 1`,
    /// transformed, and the first three components are kept.
    pub fn mul_point(&self, point: &Vector3<i128>) -> (r: Vector3<i128>)
        requires
            self.bounded(MAT_BOUND as int),
            vec3_bounded(*point, MAT_BOUND as int),
        ensures
            r == self.mul_point_spec(*point),
    {
        let v = Vector4::new(point.x, point.y, point.z, 1i128);
        let t = self.mul_vector(&v);
        t.get3([0, 1, 2])
    }

    /// The inverse by the cofactor-adjugate expansion. `None` exactly when
    /// the determinant is zero; otherwise every adjugate entry divided
    /// (truncating) by the determinant, as `inverse_spec` states.
    pub fn inverse(&self) -> (r: Option<Self>)
        requires
            self.bounded(MAT_BOUND as int),
        ensures
            self.det_of() == 0 ==> r is None,
            self.det_of() != 0 ==> r == Some(self.inverse_spec()),
    {
        let m0 = self.r0.x;
        let m1 = self.r0.y;
        let m2 = self.r0.z;
        let m3 = self.r0.w;
        let m4 = self.r1.x;
        let m5 = self.r1.y;
        let m6 = self.r1.z;
        let m7 = self.r1.w;
        let m8 = self.r2.x;
        let m9 = self.r2.y;
        let m10 = self.r2.z;
        let m11 = self.r2.w;
        let m12 = self.r3.x;
        let m13 = self.r3.y;
        let m14 = self.r3.z;
        let m15 = self.r3.w;
        let i0 = tp(m5, m10, m15) + tp(m9, m7, m14) + tp(m13, m6, m11) - tp(m5, m11, m14) - tp(m9, m6, m15) - tp(m13, m7, m10);
        let i1 = tp(m1, m11, m14) + tp(m9, m2, m15) + tp(m13, m3, m10) - tp(m1, m10, m15) - tp(m9, m3, m14) - tp(m13, m2, m11);
        let i2 = tp(m1, m6, m15) + tp(m5, m3, m14) + tp(m13, m2, m7) - tp(m1, m7, m14) - tp(m5, m2, m15) - tp(m13, m3, m6);
        let i3 = tp(m1, m7, m10) + tp(m5, m2, m11) + tp(m9, m3, m6) - tp(m1, m6, m11) - tp(m5, m3, m10) - tp(m9, m2, m7);
        let i4 = tp(m4, m11, m14) + tp(m8, m6, m15) + tp(m12, m7, m10) - tp(m4, m10, m15) - tp(m8, m7, m14) - tp(m12, m6, m11);
        let i5 = tp(m0, m10, m15) + tp(m8, m3, m14) + tp(m12, m2, m11) - tp(m0, m11, m14) - tp(m8, m2, m15) - tp(m12, m3, m10);
        let i6 = tp(m0, m7, m14) + tp(m4, m2, m15) + tp(m12, m3, m6) - tp(m0, m6, m15) - tp(m4, m3, m14) - tp(m12, m2, m7);
        let i7 = tp(m0, m6, m11) + tp(m4, m3, m10) + tp(m8, m2, m7) - tp(m0, m7, m10) - tp(m4, m2, m11) - tp(m8, m3, m6);
        let i8 = tp(m4, m9, m15) + tp(m8, m7, m13) + tp(m12, m5, m11) - tp(m4, m11, m13) - tp(m8, m5, m15) - tp(m12, m7, m9);
        let i9 = tp(m0, m11, m13) + tp(m8, m1, m15) + tp(m12, m3, m9) - tp(m0, m9, m15) - tp(m8, m3, m13) - tp(m12, m1, m11);
        let i10 = tp(m0, m5, m15) + tp(m4, m3, m13) + tp(m12, m1, m7) - tp(m0, m7, m13) - tp(m4, m1, m15) - tp(m12, m3, m5);
        let i11 = tp(m0, m7, m9) + tp(m4, m1, m11) + tp(m8, m3, m5) - tp(m0, m5, m11) - tp(m4, m3, m9) - tp(m8, m1, m7);
        let i12 = tp(m4, m10, m13) + tp(m8, m5, m14) + tp(m12, m6, m9) - tp(m4, m9, m14) - tp(m8, m6, m13) - tp(m12, m5, m10);
        let i13 = tp(m0, m9, m14) + tp(m8, m2, m13) + tp(m12, m1, m10) - tp(m0, m10, m13) - tp(m8, m1, m14) - tp(m12, m2, m9);
        let i14 = tp(m0, m6, m13) + tp(m4, m1, m14) + tp(m12, m2, m5) - tp(m0, m5, m14) - tp(m4, m2, m13) - tp(m12, m1, m6);
        let i15 = tp(m0, m5, m10) + tp(m4, m2, m9) + tp(m8, m1, m6) - tp(m0, m6, m9) - tp(m4, m1, m10) - tp(m8, m2, m5);
        proof {
            assert(i0 as int == self.adj_entry(0));
            assert(i1 as int == self.adj_entry(1));
            assert(i2 as int == self.adj_entry(2));
            assert(i3 as int == self.adj_entry(3));
            assert(i4 as int == self.adj_entry(4));
            assert(i5 as int == self.adj_entry(5));
            assert(i6 as int == self.adj_entry(6));
            assert(i7 as int == self.adj_entry(7));
            assert(i8 as int == self.adj_entry(8));
            assert(i9 as int == self.adj_entry(9));
            assert(i10 as int == self.adj_entry(10));
            assert(i11 as int == self.adj_entry(11));
            assert(i12 as int == self.adj_entry(12));
            assert(i13 as int == self.adj_entry(13));
            assert(i14 as int == self.adj_entry(14));
            assert(i15 as int == self.adj_entry(15));
        }
        let det = det_term(m0, i0) + det_term(m1, i4) + det_term(m2, i8) + det_term(m3, i12);
        proof {
            assert(det as int == self.det_of());
        }
        if det == 0 {
            return None;
        }
        let inv = Matrix4x4::new(
            Vector4::new(scale_entry(i0, det), scale_entry(i1, det), scale_entry(i2, det), scale_entry(i3, det)),
            Vector4::new(scale_entry(i4, det), scale_entry(i5, det), scale_entry(i6, det), scale_entry(i7, det)),
            Vector4::new(scale_entry(i8, det), scale_entry(i9, det), scale_entry(i10, det), scale_entry(i11, det)),
            Vector4::new(scale_entry(i12, det), scale_entry(i13, det), scale_entry(i14, det), scale_entry(i15, det)),
        );
        proof {
            assert(inv == self.inverse_spec());
        }
        Some(inv)
    }

    /// The inverse where one exists, the identity for a singular matrix.
    pub fn inversed(&self) -> (r: Self)
        requires
            self.bounded(MAT_BOUND as int),
        ensures
            self.det_of() != 0 ==> r == self.inverse_spec(),
            self.det_of() == 0 ==> r == Self::identity_spec(),
    {
        match self.inverse() {
            Some(m) => m,
            None => Self::identity(),
        }
    }

    pub open spec fn from_quaternion_spec(quat: Quaternion<i128>) -> Self {
        let qx = quat.data.x as int;
        let qy = quat.data.y as int;
        let qz = quat.data.z as int;
        let qw = quat.data.w as int;
        Matrix4x4 {
            r0: Vector4 { x: (1 - 2 * qy * qy - 2 * qz * qz) as i128, y: (2 * qx * qy - 2 * qz * qw) as i128, z: (2 * qx * qz + 2 * qy * qw) as i128, w: 0i128, },
            r1: Vector4 { x: (2 * qx * qy + 2 * qz * qw) as i128, y: (1 - 2 * qx * qx - 2 * qz * qz) as i128, z: (2 * qy * qz - 2 * qx * qw) as i128, w: 0i128, },
            r2: Vector4 { x: (2 * qx * qz - 2 * qy * qw) as i128, y: (2 * qy * qz + 2 * qx * qw) as i128, z: (1 - 2 * qx * qx - 2 * qy * qy) as i128, w: 0i128, },
            r3: Vector4::unit_w_spec(),
        }
    }

    /// The rotation matrix of a quaternion, by the standard formula.
    pub fn from_quaternion(quat: &Quaternion<i128>) -> (r: Self)
        requires
            vec4_bounded(quat.data, MAT_BOUND as int),
        ensures
            r == Self::from_quaternion_spec(*quat),
    {
        let qx = quat.data.x;
        let qy = quat.data.y;
        let qz = quat.data.z;
        let qw = quat.data.w;
        let vec1 = Vector4::new(
            1 - two_prod(qy, qy) - two_prod(qz, qz),
            two_prod(qx, qy) - two_prod(qz, qw),
            two_prod(qx, qz) + two_prod(qy, qw),
            0,
        );
        let vec2 = Vector4::new(
            two_prod(qx, qy) + two_prod(qz, qw),
            1 - two_prod(qx, qx) - two_prod(qz, qz),
            two_prod(qy, qz) - two_prod(qx, qw),
            0,
        );
        let vec3 = Vector4::new(
            two_prod(qx, qz) - two_prod(qy, qw),
            two_prod(qy, qz) + two_prod(qx, qw),
            1 - two_prod(qx, qx) - two_prod(qy, qy),
            0,
        );
        let vec4 = Vector4::unit_w();
        Matrix4x4::new(vec1, vec2, vec3, vec4)
    }
}

/// Twice the product of two values within `MAT_BOUND`, with its bound.
fn two_prod(a: i128, b: i128) -> (r: i128)
    requires
        -MAT_BOUND <= a <= MAT_BOUND,
        -MAT_BOUND <= b <= MAT_BOUND,
    ensures
        r as int == 2 * a * b,
        -(2 * MAT_BOUND * MAT_BOUND) <= r as int <= 2 * MAT_BOUND * MAT_BOUND,
{
    proof {
        lemma_mul_bound(a as int, b as int, MAT_BOUND as int, MAT_BOUND as int);
        assert(2 * (a * b) == 2 * (a as int) * (b as int)) by (nonlinear_arith);
    }
    2 * (a * b)
}

impl<T: SupportedValue> Default for Matrix4x4<T> {
    /// The identity matrix.
    fn default() -> (r: Self)
        ensures
            r == Self::identity_spec(),
    {
        Self::identity()
    }
}

} // verus!
