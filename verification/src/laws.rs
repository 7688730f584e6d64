use crate::matrix::Matrix4x4;
use crate::types::ScalarArith;
use crate::types::ScalarNeg;
use crate::types::SupportedValue;
use crate::vector::Swizzable;
use crate::vectors::Vector2;
use crate::vectors::le_byte;
use crate::vectors::lemma_le_bytes_recompose;
use crate::vectors::Vector3;
use crate::vectors::Vector4;
use vstd::prelude::*;

verus! {

/// Adding and then subtracting one value round-trips, at the scalar level.
proof fn lemma_scalar_add_sub<T: ScalarArith>(a: T, b: T)
    requires
        T::in_range(a.as_num() + b.as_num()),
    ensures
        T::from_num(T::from_num(a.as_num() + b.as_num()).as_num() - b.as_num()) == a,
{
    T::from_to_num(a.as_num() + b.as_num());
    T::num_in_range(a);
    T::from_to_num(a.as_num());
    T::num_injective(T::from_num(a.as_num()), a);
}

/// Negating twice round-trips, at the scalar level.
proof fn lemma_scalar_neg_neg<T: ScalarNeg>(a: T)
    requires
        T::in_range(-a.as_num()),
    ensures
        T::from_num(-T::from_num(-a.as_num()).as_num()) == a,
{
    T::from_to_num(-a.as_num());
    T::num_in_range(a);
    T::from_to_num(a.as_num());
    T::num_injective(T::from_num(a.as_num()), a);
}

/// One interpolation endpoint law, at the scalar level: weight zero gives the
/// start, weight one gives the end.
proof fn lemma_scalar_lerp_ends<T: ScalarArith>(a: T, b: T)
    requires
        T::in_range(b.as_num() - a.as_num()),
    ensures
        T::from_num(a.as_num() + (b.as_num() - a.as_num()) * T::zero_spec().as_num()) == a,
        T::from_num(a.as_num() + (b.as_num() - a.as_num()) * T::one_spec().as_num()) == b,
{
    T::identity_nums();
    T::num_in_range(a);
    T::from_to_num(a.as_num());
    T::num_injective(T::from_num(a.as_num()), a);
    T::num_in_range(b);
    T::from_to_num(b.as_num());
    T::num_injective(T::from_num(b.as_num()), b);
}

/// Multiplication by the constants 0 and 1, usable wherever a product
/// appears: what the identity-matrix laws turn on.
broadcast proof fn lemma_mul_unit_or_zero(a: int, b: int)
    ensures
        a == 0 ==> #[trigger] (a * b) == 0,
        b == 0 ==> (a * b) == 0,
        a == 1 ==> (a * b) == b,
        b == 1 ==> (a * b) == a,
{
    assert(a == 0 ==> a * b == 0) by (nonlinear_arith);
    assert(b == 0 ==> a * b == 0) by (nonlinear_arith);
    assert(a == 1 ==> a * b == b) by (nonlinear_arith);
    assert(b == 1 ==> a * b == a) by (nonlinear_arith);
}

/// The identity needed by the orthogonality law: a dot product whose every
/// term has a zero factor is the zero value.
proof fn lemma_from_zero<T: ScalarArith>()
    ensures
        T::from_num(0) == T::zero_spec(),
{
    T::identity_nums();
    T::identities_in_range();
    T::from_to_num(0);
    T::num_injective(T::from_num(0), T::zero_spec());
}

/// `a + b - b == a` for 2-vectors, whenever the sum stays in range.
pub proof fn lemma_add_sub_round_trip2<T: ScalarArith>(a: Vector2<T>, b: Vector2<T>)
    requires
        T::in_range(a.x.as_num() + b.x.as_num()),
        T::in_range(a.y.as_num() + b.y.as_num()),
    ensures
        a.add_spec(b).sub_spec(b) == a,
{
    lemma_scalar_add_sub(a.x, b.x);
    lemma_scalar_add_sub(a.y, b.y);
}

/// `a + b - b == a` for 3-vectors, whenever the sum stays in range.
pub proof fn lemma_add_sub_round_trip3<T: ScalarArith>(a: Vector3<T>, b: Vector3<T>)
    requires
        T::in_range(a.x.as_num() + b.x.as_num()),
        T::in_range(a.y.as_num() + b.y.as_num()),
        T::in_range(a.z.as_num() + b.z.as_num()),
    ensures
        a.add_spec(b).sub_spec(b) == a,
{
    lemma_scalar_add_sub(a.x, b.x);
    lemma_scalar_add_sub(a.y, b.y);
    lemma_scalar_add_sub(a.z, b.z);
}

/// `a + b - b == a` for 4-vectors, whenever the sum stays in range.
pub proof fn lemma_add_sub_round_trip4<T: ScalarArith>(a: Vector4<T>, b: Vector4<T>)
    requires
        T::in_range(a.x.as_num() + b.x.as_num()),
        T::in_range(a.y.as_num() + b.y.as_num()),
        T::in_range(a.z.as_num() + b.z.as_num()),
        T::in_range(a.w.as_num() + b.w.as_num()),
    ensures
        a.add_spec(b).sub_spec(b) == a,
{
    lemma_scalar_add_sub(a.x, b.x);
    lemma_scalar_add_sub(a.y, b.y);
    lemma_scalar_add_sub(a.z, b.z);
    lemma_scalar_add_sub(a.w, b.w);
}

/// `-(-a) == a` for 2-vectors, whenever the negation stays in range.
pub proof fn lemma_neg_involution2<T: ScalarNeg>(a: Vector2<T>)
    requires
        T::in_range(-a.x.as_num()),
        T::in_range(-a.y.as_num()),
    ensures
        a.neg_spec().neg_spec() == a,
{
    lemma_scalar_neg_neg(a.x);
    lemma_scalar_neg_neg(a.y);
}

/// `-(-a) == a` for 3-vectors, whenever the negation stays in range.
pub proof fn lemma_neg_involution3<T: ScalarNeg>(a: Vector3<T>)
    requires
        T::in_range(-a.x.as_num()),
        T::in_range(-a.y.as_num()),
        T::in_range(-a.z.as_num()),
    ensures
        a.neg_spec().neg_spec() == a,
{
    lemma_scalar_neg_neg(a.x);
    lemma_scalar_neg_neg(a.y);
    lemma_scalar_neg_neg(a.z);
}

/// `-(-a) == a` for 4-vectors, whenever the negation stays in range.
pub proof fn lemma_neg_involution4<T: ScalarNeg>(a: Vector4<T>)
    requires
        T::in_range(-a.x.as_num()),
        T::in_range(-a.y.as_num()),
        T::in_range(-a.z.as_num()),
        T::in_range(-a.w.as_num()),
    ensures
        a.neg_spec().neg_spec() == a,
{
    lemma_scalar_neg_neg(a.x);
    lemma_scalar_neg_neg(a.y);
    lemma_scalar_neg_neg(a.z);
    lemma_scalar_neg_neg(a.w);
}

/// The two distinct unit basis 2-vectors are orthogonal: their dot product is
/// the zero value.
pub proof fn lemma_unit_dot_zero2<T: ScalarArith>()
    ensures
        Vector2::<T>::unit_x_spec().dot_spec(Vector2::<T>::unit_y_spec()) == T::zero_spec(),
{
    T::identity_nums();
    lemma_from_zero::<T>();
}

/// Any two distinct unit basis 3-vectors are orthogonal: their dot product is
/// the zero value.
pub proof fn lemma_unit_dot_zero3<T: ScalarArith>()
    ensures
        Vector3::<T>::unit_x_spec().dot_spec(Vector3::<T>::unit_y_spec()) == T::zero_spec(),
        Vector3::<T>::unit_x_spec().dot_spec(Vector3::<T>::unit_z_spec()) == T::zero_spec(),
        Vector3::<T>::unit_y_spec().dot_spec(Vector3::<T>::unit_z_spec()) == T::zero_spec(),
{
    T::identity_nums();
    lemma_from_zero::<T>();
}

/// Any two distinct unit basis 4-vectors are orthogonal: their dot product is
/// the zero value.
pub proof fn lemma_unit_dot_zero4<T: ScalarArith>()
    ensures
        Vector4::<T>::unit_x_spec().dot_spec(Vector4::<T>::unit_y_spec()) == T::zero_spec(),
        Vector4::<T>::unit_x_spec().dot_spec(Vector4::<T>::unit_z_spec()) == T::zero_spec(),
        Vector4::<T>::unit_x_spec().dot_spec(Vector4::<T>::unit_w_spec()) == T::zero_spec(),
        Vector4::<T>::unit_y_spec().dot_spec(Vector4::<T>::unit_z_spec()) == T::zero_spec(),
        Vector4::<T>::unit_y_spec().dot_spec(Vector4::<T>::unit_w_spec()) == T::zero_spec(),
        Vector4::<T>::unit_z_spec().dot_spec(Vector4::<T>::unit_w_spec()) == T::zero_spec(),
{
    T::identity_nums();
    lemma_from_zero::<T>();
}

/// Transposing twice gives back the original matrix.
pub proof fn lemma_transpose_involution<T: Copy>(m: Matrix4x4<T>)
    ensures
        m.transpose_spec().transpose_spec() == m,
{
}

/// The identity matrix is neutral for the matrix product of itself.
pub proof fn lemma_identity_mul_identity()
    ensures
        Matrix4x4::<i128>::identity_spec().mul_spec(Matrix4x4::<i128>::identity_spec())
            == Matrix4x4::<i128>::identity_spec(),
{
    lemma_identity_mul_left(Matrix4x4::<i128>::identity_spec());
}

/// The identity matrix is neutral on the left of the matrix product.
pub proof fn lemma_identity_mul_left(m: Matrix4x4<i128>)
    ensures
        Matrix4x4::<i128>::identity_spec().mul_spec(m) == m,
{
    broadcast use lemma_mul_unit_or_zero;

    let id = Matrix4x4::<i128>::identity_spec();
    assert(id.mul_spec(m).r0 == m.r0);
    assert(id.mul_spec(m).r1 == m.r1);
    assert(id.mul_spec(m).r2 == m.r2);
    assert(id.mul_spec(m).r3 == m.r3);
}

/// The identity matrix is neutral on the right of the matrix product.
pub proof fn lemma_identity_mul_right(m: Matrix4x4<i128>)
    ensures
        m.mul_spec(Matrix4x4::<i128>::identity_spec()) == m,
{
    broadcast use lemma_mul_unit_or_zero;

    let id = Matrix4x4::<i128>::identity_spec();
    assert(m.mul_spec(id).r0 == m.r0);
    assert(m.mul_spec(id).r1 == m.r1);
    assert(m.mul_spec(id).r2 == m.r2);
    assert(m.mul_spec(id).r3 == m.r3);
}

/// The identity matrix inverts to itself: its determinant is 1 and its
/// inverse is the identity again.
pub proof fn lemma_inverse_identity()
    ensures
        Matrix4x4::<i128>::identity_spec().det_of() == 1,
        Matrix4x4::<i128>::identity_spec().inverse_spec() == Matrix4x4::<i128>::identity_spec(),
{
    let m = Matrix4x4::<i128>::identity_spec();
    assert(m.det_of() == 1);
}

/// Exporting a vector's little-endian bytes and recomposing each component
/// from them gives the vector back: the byte layout loses nothing.
pub proof fn lemma_le_bytes_round_trip(v: Vector3<u32>, w: Vector3<u32>)
    requires
        w.x == le_byte(v.x, 0) + 256 * le_byte(v.x, 1) + 65536 * le_byte(v.x, 2) + 16777216
            * le_byte(v.x, 3),
        w.y == le_byte(v.y, 0) + 256 * le_byte(v.y, 1) + 65536 * le_byte(v.y, 2) + 16777216
            * le_byte(v.y, 3),
        w.z == le_byte(v.z, 0) + 256 * le_byte(v.z, 1) + 65536 * le_byte(v.z, 2) + 16777216
            * le_byte(v.z, 3),
    ensures
        w == v,
{
    lemma_le_bytes_recompose(v.x);
    lemma_le_bytes_recompose(v.y);
    lemma_le_bytes_recompose(v.z);
}

/// Gathering the components of a 3-vector in their own order reproduces it.
pub proof fn lemma_swizzle_identity3<T: Copy>(v: Vector3<T>)
    ensures
        v.swz3(0, 1, 2) == v,
{
}

/// Interpolating with weight zero gives the start vector, with weight one the
/// end vector, for 2-vectors whose difference stays in range.
pub proof fn lemma_lerp_ends2<T: ScalarArith>(a: Vector2<T>, b: Vector2<T>)
    requires
        T::in_range(b.x.as_num() - a.x.as_num()),
        T::in_range(b.y.as_num() - a.y.as_num()),
    ensures
        a.lerp_spec(b, T::zero_spec()) == a,
        a.lerp_spec(b, T::one_spec()) == b,
{
    lemma_scalar_lerp_ends(a.x, b.x);
    lemma_scalar_lerp_ends(a.y, b.y);
}

/// Interpolating with weight zero gives the start vector, with weight one the
/// end vector, for 3-vectors whose difference stays in range.
pub proof fn lemma_lerp_ends3<T: ScalarArith>(a: Vector3<T>, b: Vector3<T>)
    requires
        T::in_range(b.x.as_num() - a.x.as_num()),
        T::in_range(b.y.as_num() - a.y.as_num()),
        T::in_range(b.z.as_num() - a.z.as_num()),
    ensures
        a.lerp_spec(b, T::zero_spec()) == a,
        a.lerp_spec(b, T::one_spec()) == b,
{
    lemma_scalar_lerp_ends(a.x, b.x);
    lemma_scalar_lerp_ends(a.y, b.y);
    lemma_scalar_lerp_ends(a.z, b.z);
}

/// Interpolating with weight zero gives the start vector, with weight one the
/// end vector, for 4-vectors whose difference stays in range.
pub proof fn lemma_lerp_ends4<T: ScalarArith>(a: Vector4<T>, b: Vector4<T>)
    requires
        T::in_range(b.x.as_num() - a.x.as_num()),
        T::in_range(b.y.as_num() - a.y.as_num()),
        T::in_range(b.z.as_num() - a.z.as_num()),
        T::in_range(b.w.as_num() - a.w.as_num()),
    ensures
        a.lerp_spec(b, T::zero_spec()) == a,
        a.lerp_spec(b, T::one_spec()) == b,
{
    lemma_scalar_lerp_ends(a.x, b.x);
    lemma_scalar_lerp_ends(a.y, b.y);
    lemma_scalar_lerp_ends(a.z, b.z);
    lemma_scalar_lerp_ends(a.w, b.w);
}

} // verus!
