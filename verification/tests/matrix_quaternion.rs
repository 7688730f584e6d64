use veclib::Matrix4x4;
use veclib::Quaternion;
use veclib::Vector3;
use veclib::Vector4;

#[test]
fn identity_times_identity() {
    let id = Matrix4x4::<i128>::identity();
    assert_eq!(id.mul_mat4x4(id), id);
}

#[test]
fn transpose_twice_is_identity_operation() {
    let m = Matrix4x4::<i32>::new(
        Vector4::new(0, 1, 2, 3),
        Vector4::new(4, 5, 6, 7),
        Vector4::new(8, 9, 10, 11),
        Vector4::new(12, 13, 14, 15),
    );
    assert_eq!(m.transposed().transposed(), m);
    let t = m.transposed();
    assert_eq!(t.r0, Vector4::new(0, 4, 8, 12));
    assert_eq!(t.r3, Vector4::new(3, 7, 11, 15));
    let mut n = m;
    n.transpose();
    assert_eq!(n, t);
}

#[test]
fn flat_and_row_access() {
    let m = Matrix4x4::<i32>::new(
        Vector4::new(5, 5, 2, 1),
        Vector4::new(2, -4, -2, -3),
        Vector4::new(9, 5, -11, -2),
        Vector4::new(5, 5, 5, -2),
    );
    assert_eq!(m.get_vec(1).x, m.get_elem(4));
    assert_eq!(m.get_vec(1).y, m.get_elem(5));
    assert_eq!(m.get_vec(1).z, m.get_elem(6));
    let mut n = m;
    *n.get_vec_mut(2) = Vector4::new(1, 2, 3, 4);
    assert_eq!(n.r2, Vector4::new(1, 2, 3, 4));
    assert_eq!(n.r0, m.r0);
}

#[test]
fn inverse_of_identity() {
    let id = Matrix4x4::<i128>::identity();
    assert_eq!(id.inverse(), Some(id));
    assert_eq!(id.inversed(), id);
}

#[test]
fn inverse_of_singular_matrix_is_none() {
    let z = Matrix4x4::<i128>::new(
        Vector4::zero(),
        Vector4::zero(),
        Vector4::zero(),
        Vector4::zero(),
    );
    assert_eq!(z.inverse(), None);
    assert_eq!(z.inversed(), Matrix4x4::<i128>::identity());
    let twice = Matrix4x4::<i128>::new(
        Vector4::new(1, 2, 3, 4),
        Vector4::new(2, 4, 6, 8),
        Vector4::new(0, 0, 1, 0),
        Vector4::new(0, 0, 0, 1),
    );
    assert_eq!(twice.inverse(), None);
}

#[test]
fn inverse_of_translation() {
    let m = Matrix4x4::<i128>::from_translation(Vector3::new(2, 3, 4));
    let back = Matrix4x4::<i128>::from_translation(Vector3::new(-2, -3, -4));
    assert_eq!(m.inverse(), Some(back));
}

#[test]
fn scale_transforms_point() {
    let m = Matrix4x4::<i128>::from_scale(Vector3::new(100, 100, 100));
    let p = Vector3::<i128>::one();
    assert_eq!(m.mul_point(&p), Vector3::new(100, 100, 100));
}

#[test]
fn translation_moves_point_in_column_convention() {
    let m = Matrix4x4::<i128>::from_translation(Vector3::new(10, 20, 30));
    let t = m.transposed();
    assert_eq!(t.mul_point(&Vector3::new(1, 2, 3)), Vector3::new(11, 22, 33));
}

#[test]
fn identity_transforms_vector_to_itself() {
    let id = Matrix4x4::<i128>::identity();
    let v = Vector4::new(7, -8, 9, 1);
    assert_eq!(id.mul_vector(&v), v);
}

#[test]
fn quaternion_identity_and_access() {
    let q = Quaternion::<i32>::identity();
    assert_eq!(q.get(0), 0);
    assert_eq!(q.get(3), 1);
    let mut p = Quaternion::from_vector(Vector4::new(1, 2, 3, 4));
    p.set(2, 30);
    assert_eq!(p.data, Vector4::new(1, 2, 30, 4));
}

#[test]
fn hamilton_product_of_basis_quaternions() {
    let i = Quaternion::from_vector(Vector4::<i128>::new(1, 0, 0, 0));
    let j = Quaternion::from_vector(Vector4::<i128>::new(0, 1, 0, 0));
    let k = Quaternion::from_vector(Vector4::<i128>::new(0, 0, 1, 0));
    assert_eq!(i.mul_quaternion(j), k);
    assert_eq!(
        j.mul_quaternion(i),
        Quaternion::from_vector(Vector4::new(0, 0, -1, 0)),
    );
    assert_eq!(
        i.mul_quaternion(i),
        Quaternion::from_vector(Vector4::new(0, 0, 0, -1)),
    );
    let id = Quaternion::<i128>::identity();
    assert_eq!(id.mul_quaternion(i), i);
    assert_eq!(i.mul_quaternion(id), i);
}

#[test]
fn quaternion_rotates_points() {
    let id = Quaternion::<i128>::identity();
    let p = Vector3::new(3, 4, 5);
    assert_eq!(id.mul_point(p), p);
    let half_turn_z = Quaternion::from_vector(Vector4::<i128>::new(0, 0, 1, 0));
    assert_eq!(half_turn_z.mul_point(p), Vector3::new(-3, -4, 5));
}

#[test]
fn rotation_matrix_from_quaternion() {
    let id = Quaternion::<i128>::identity();
    assert_eq!(Matrix4x4::from_quaternion(&id), Matrix4x4::<i128>::identity());
    let half_turn_z = Quaternion::from_vector(Vector4::<i128>::new(0, 0, 1, 0));
    let m = Matrix4x4::from_quaternion(&half_turn_z);
    assert_eq!(m.r0, Vector4::new(-1, 0, 0, 0));
    assert_eq!(m.r1, Vector4::new(0, -1, 0, 0));
    assert_eq!(m.r2, Vector4::new(0, 0, 1, 0));
    assert_eq!(m.r3, Vector4::new(0, 0, 0, 1));
}

#[test]
fn default_matrix_and_quaternion_are_identities() {
    assert_eq!(Matrix4x4::<i32>::default(), Matrix4x4::identity());
    assert_eq!(Quaternion::<i32>::default(), Quaternion::identity());
}

#[test]
fn flat_entry_update() {
    let mut m = Matrix4x4::<i32>::identity();
    m.set_elem(6, 42);
    assert_eq!(m.r1, Vector4::new(0, 1, 42, 0));
    assert_eq!(m.get_elem(6), 42);
    assert_eq!(m.r0, Vector4::new(1, 0, 0, 0));
}
