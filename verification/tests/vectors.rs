use veclib::Swizzable;
use veclib::UnsizedVector;
use veclib::Vec3Axis;
use veclib::Vec4Axis;
use veclib::Vector;
use veclib::Vector2;
use veclib::Vector3;
use veclib::Vector4;
use veclib::VectorElemCount;
use veclib::vec2;
use veclib::vec3;
use veclib::vec4;

#[test]
fn swizzle() {
    let y = Vector3::<f32>::new(130.0, 52.0, 86.0);
    assert_eq!(y.get3([0, 0, 0]), Vector3::new(130.0, 130.0, 130.0));
    assert_eq!(y.get3([1, 1, 1]), Vector3::new(52.0, 52.0, 52.0));
    assert_eq!(y.get3([2, 1, 0]), Vector3::new(86.0, 52.0, 130.0));

    let a = Vector3::<bool>::new(false, true, true);
    assert_eq!(a.get3([0, 0, 0]), Vector3::new(false, false, false));
    assert_eq!(a.get3([1, 1, 1]), Vector3::new(true, true, true));
    assert_eq!(a, Vector3::new(false, true, true));
    assert_eq!(a.get4([2, 1, 0, 1]), Vector4::new(true, true, false, true));
}

#[test]
fn tests_swizzle() {
    let y = Vector3::<f32>::new(130.0, 52.0, 86.0);
    assert_eq!(y.get3([0, 0, 0]), Vector3::new(130.0, 130.0, 130.0));
    assert_eq!(y.get3([1, 1, 1]), Vector3::new(52.0, 52.0, 52.0));
    assert_eq!(y.get3([2, 1, 0]), Vector3::new(86.0, 52.0, 130.0));

    let a = Vector3::<bool>::new(false, true, true);
    assert_eq!(a.get3([0, 0, 0]), Vector3::new(false, false, false));
    assert_eq!(a.get3([1, 1, 1]), Vector3::new(true, true, true));
    assert_eq!(a, Vector3::new(false, true, true));
    assert_eq!(a.get4([2, 1, 0, 1]), Vector4::new(true, true, false, true));
}

#[test]
fn vector_axis() {
    let v1 = Vector3::<f32>::new(10.0, -5.0, 20.0);
    assert_eq!(v1.get_axis(Vec3Axis::X), 10.0);
    assert_eq!(v1.get_axis(Vec3Axis::Y), -5.0);
    assert_eq!(v1.get_axis(Vec3Axis::Z), 20.0);
}

#[test]
fn unsized_vector() {
    let scalar = 0.0_f64;
    let v1 = Vector3::<f64>::new(10.0, -5.0, 20.0);
    let u1 = scalar.get_unsized();
    let u2 = v1.get_unsized();
    assert_eq!(u1, UnsizedVector::Scalar(0.0));
    assert_eq!(u2, UnsizedVector::Vec3(Vector3::<f64>::new(10.0, -5.0, 20.0)));
}

#[test]
fn swizzle_identity_reproduces_vector() {
    let v = Vector3::<i32>::new(9, -2, 44);
    assert_eq!(v.get3([0, 1, 2]), v);
    let w = Vector2::<i64>::new(8, 15);
    assert_eq!(w.get2([0, 1]), w);
    let u = Vector4::<u8>::new(1, 2, 3, 4);
    assert_eq!(u.get4([0, 1, 2, 3]), u);
    assert_eq!(u.get2([3, 3]), Vector2::new(4, 4));
}

#[test]
fn axis_constructors() {
    assert_eq!(Vector3::<i32>::get_default_axis(Vec3Axis::Y), Vector3::new(0, 1, 0));
    assert_eq!(Vector4::<i32>::get_default_axis(Vec4Axis::W), Vector4::new(0, 0, 0, 1));
    let v = Vector4::<i16>::new(4, 5, 6, 7);
    assert_eq!(v.get_axis(Vec4Axis::Z), 6);
}

#[test]
fn free_constructors() {
    assert_eq!(vec2(1u32, 2u32), Vector2::new(1, 2));
    assert_eq!(vec3(1i8, 2i8, 3i8), Vector3::new(1, 2, 3));
    assert_eq!(vec4(1u64, 2u64, 3u64, 4u64), Vector4::new(1, 2, 3, 4));
}

#[test]
fn indexed_access() {
    let mut v = Vector3::<i32>::new(7, 8, 9);
    assert_eq!(v.get(0), 7);
    assert_eq!(v.get(2), 9);
    v.set(1, -8);
    assert_eq!(v, Vector3::new(7, -8, 9));
}

#[test]
fn named_accessors() {
    let mut v = Vector2::<i64>::new(3, 4);
    assert_eq!(v.x(), 3);
    assert_eq!(v.y(), 4);
    v.set_x(30);
    v.set_y(40);
    assert_eq!(v, Vector2::new(30, 40));
}

#[test]
fn element_counts() {
    assert_eq!(Vector2::<i32>::elem_count(), 2);
    assert_eq!(Vector3::<i32>::elem_count(), 3);
    assert_eq!(Vector4::<i32>::elem_count(), 4);
}

#[test]
fn unsized_vector_integers() {
    assert_eq!(7i32.get_unsized(), UnsizedVector::Scalar(7));
    let v = Vector2::<u8>::new(1, 2);
    assert_eq!(v.get_unsized(), UnsizedVector::Vec2(v));
    let w = Vector4::<i64>::new(1, 2, 3, 4);
    assert_eq!(w.get_unsized(), UnsizedVector::Vec4(w));
}

#[test]
fn byte_layout_round_trip() {
    let v = Vector3::<u32>::new(0x01020304, 7, u32::MAX);
    let bytes = v.to_le_bytes();
    assert_eq!(bytes.len(), 12);
    assert_eq!(&bytes[0..4], &[0x04, 0x03, 0x02, 0x01]);
    assert_eq!(&bytes[4..8], &[7, 0, 0, 0]);
    assert_eq!(&bytes[8..12], &[0xff, 0xff, 0xff, 0xff]);
    assert_eq!(Vector3::<u32>::from_le_bytes(&bytes), v);
}
