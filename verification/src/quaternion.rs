use crate::matrix::MAT_BOUND;
use crate::matrix::lemma_mul_bound;
use crate::matrix::vec3_bounded;
use crate::matrix::vec4_bounded;
use crate::types::SupportedValue;
use crate::vectors::Vector3;
use crate::vectors::Vector4;
use vstd::prelude::*;

verus! {

/// The six orders in which the three single-axis rotations can be applied
/// when a rotation is built from Euler angles. Purely a selector.
#[derive(Clone, Copy, Debug, PartialEq)]
pub enum EulerAnglesOrder {
    XYZ,
    XZY,
    YXZ,
    YZX,
    ZXY,
    ZYX,
}

/// A rotation representor: one 4-component vector whose `x`, `y`, `z` are the
/// vector (imaginary) part and whose `w` is the scalar (real) part.
#[derive(Clone, Copy, Debug, PartialEq)]
pub struct Quaternion<T> {
    pub data: Vector4<T>,
}

impl<T> Quaternion<T> {
    /// A quaternion from its underlying 4-vector, components in
    /// (x, y, z, w) order.
    pub fn from_vector(data: Vector4<T>) -> (r: Self)
        ensures
            r.data == data,
    {
        Quaternion { data }
    }
}

impl<T: Copy> Quaternion<T> {
    /// The component at an index, in (x, y, z, w) order.
    pub fn get(&self, i: usize) -> (r: T)
        requires
            i < 4,
        ensures
            r == self.data.index_spec(i as int),
    {
        self.data.get(i)
    }

    /// Replace the component at an index; the others keep their values.
    pub fn set(&mut self, i: usize, v: T)
        requires
            i < 4,
        ensures
            final(self).data == old(self).data.update_spec(i as int, v),
    {
        self.data.set(i, v);
    }
}

impl<T: SupportedValue> Quaternion<T> {
    /// The rotation that leaves every point in place: (0, 0, 0, 1).
    pub open spec fn identity_spec() -> Self {
        Quaternion { data: Vector4::unit_w_spec() }
    }

    /// The identity rotation.
    pub fn identity() -> (r: Self)
        ensures
            r == Self::identity_spec(),
    {
        Quaternion { data: Vector4::unit_w() }
    }
}

/// A product of two values within `MAT_BOUND`, exact and bounded.
fn prod(a: i128, b: i128) -> (r: i128)
    requires
        -MAT_BOUND <= a <= MAT_BOUND,
        -MAT_BOUND <= b <= MAT_BOUND,
    ensures
        r as int == a * b,
        -(MAT_BOUND * MAT_BOUND) <= r as int <= MAT_BOUND * MAT_BOUND,
{
    proof {
        lemma_mul_bound(a as int, b as int, MAT_BOUND as int, MAT_BOUND as int);
    }
    a * b
}

impl Quaternion<i128> {
    /// The Hamilton product `self` then `other` composed, `self` on the left:
    /// scalar part `w1*w2 - v1.v2`, vector part `w1*v2 + w2*v1 + v1 x v2`.
    pub open spec fn mul_q_spec(self, other: Self) -> Self {
        let sx = self.data.x as int;
        let sy = self.data.y as int;
        let sz = self.data.z as int;
        let sw = self.data.w as int;
        let ox = other.data.x as int;
        let oy = other.data.y as int;
        let oz = other.data.z as int;
        let ow = other.data.w as int;
        Quaternion {
            data: Vector4 {
                x: (sw * ox + ow * sx + (sy * oz - sz * oy)) as i128,
                y: (sw * oy + ow * sy + (sz * ox - sx * oz)) as i128,
                z: (sw * oz + ow * sz + (sx * oy - sy * ox)) as i128,
                w: (sw * ow - (sx * ox + sy * oy + sz * oz)) as i128,
            },
        }
    }

    /// Compose two rotations by the Hamilton product: when rotations act by
    /// `mul_point`, the product applies `other` first and `self` second.
    pub fn mul_quaternion(&self, other: Quaternion<i128>) -> (r: Quaternion<i128>)
        requires
            vec4_bounded(self.data, MAT_BOUND as int),
            vec4_bounded(other.data, MAT_BOUND as int),
        ensures
            r == self.mul_q_spec(other),
    {
        let sx = self.data.x;
        let sy = self.data.y;
        let sz = self.data.z;
        let sw = self.data.w;
        let ox = other.data.x;
        let oy = other.data.y;
        let oz = other.data.z;
        let ow = other.data.w;
        let rx = prod(sw, ox) + prod(ow, sx) + (prod(sy, oz) - prod(sz, oy));
        let ry = prod(sw, oy) + prod(ow, sy) + (prod(sz, ox) - prod(sx, oz));
        let rz = prod(sw, oz) + prod(ow, sz) + (prod(sx, oy) - prod(sy, ox));
        let rw = prod(sw, ow) - (prod(sx, ox) + prod(sy, oy) + prod(sz, oz));
        Quaternion { data: Vector4::new(rx, ry, rz, rw) }
    }

    /// Rotate a point: `p + 2w(v x p) + 2(v x (v x p))`, the closed form of
    /// the quaternion sandwich product for a unit quaternion.
    pub open spec fn mul_point_spec(self, point: Vector3<i128>) -> Vector3<i128> {
        let sv = Vector3 { x: self.data.x, y: self.data.y, z: self.data.z };
        let t = sv.cross_spec(point);
        let a = t.mul_scalar_spec((2 * self.data.w) as i128);
        let u = sv.cross_spec(t);
        let b = u.mul_scalar_spec(2i128);
        point.add_spec(a).add_spec(b)
    }

    /// Rotate a 3-point by this quaternion, taken as a rotation.
    pub fn mul_point(&self, point: Vector3<i128>) -> (r: Vector3<i128>)
        requires
            vec4_bounded(self.data, MAT_BOUND as int),
            vec3_bounded(point, MAT_BOUND as int),
        ensures
            r == self.mul_point_spec(point),
    {
        let sv = Vector3::new(self.data.x, self.data.y, self.data.z);
        proof {
            lemma_mul_bound(sv.y as int, point.z as int, MAT_BOUND as int, MAT_BOUND as int);
            lemma_mul_bound(sv.z as int, point.y as int, MAT_BOUND as int, MAT_BOUND as int);
            lemma_mul_bound(sv.z as int, point.x as int, MAT_BOUND as int, MAT_BOUND as int);
            lemma_mul_bound(sv.x as int, point.z as int, MAT_BOUND as int, MAT_BOUND as int);
            lemma_mul_bound(sv.x as int, point.y as int, MAT_BOUND as int, MAT_BOUND as int);
            lemma_mul_bound(sv.y as int, point.x as int, MAT_BOUND as int, MAT_BOUND as int);
        }
        let t = sv.cross(point);
        let w2 = 2 * self.data.w;
        proof {
            lemma_mul_bound(t.x as int, w2 as int, 2 * MAT_BOUND * MAT_BOUND, 2 * MAT_BOUND as int);
            lemma_mul_bound(t.y as int, w2 as int, 2 * MAT_BOUND * MAT_BOUND, 2 * MAT_BOUND as int);
            lemma_mul_bound(t.z as int, w2 as int, 2 * MAT_BOUND * MAT_BOUND, 2 * MAT_BOUND as int);
        }
        let a = t.mul_scalar(w2);
        proof {
            lemma_mul_bound(sv.y as int, t.z as int, MAT_BOUND as int, 2 * MAT_BOUND * MAT_BOUND);
            lemma_mul_bound(sv.z as int, t.y as int, MAT_BOUND as int, 2 * MAT_BOUND * MAT_BOUND);
            lemma_mul_bound(sv.z as int, t.x as int, MAT_BOUND as int, 2 * MAT_BOUND * MAT_BOUND);
            lemma_mul_bound(sv.x as int, t.z as int, MAT_BOUND as int, 2 * MAT_BOUND * MAT_BOUND);
            lemma_mul_bound(sv.x as int, t.y as int, MAT_BOUND as int, 2 * MAT_BOUND * MAT_BOUND);
            lemma_mul_bound(sv.y as int, t.x as int, MAT_BOUND as int, 2 * MAT_BOUND * MAT_BOUND);
        }
        let u = sv.cross(t);
        let b = u.mul_scalar(2);
        point.add(a).add(b)
    }
}

impl<T: SupportedValue> Default for Quaternion<T> {
    /// The identity rotation.
    fn default() -> (r: Self)
        ensures
            r == Self::identity_spec(),
    {
        Self::identity()
    }
}

} // verus!
