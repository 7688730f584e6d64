use veclib::Cast;
use veclib::Vector2;
use veclib::Vector3;
use veclib::Vector4;
use veclib::cast;
use veclib::cast3;
use veclib::cast4;

#[test]
fn add_sub_round_trip() {
    let a = Vector3::<i32>::new(7, -3, 100);
    let b = Vector3::<i32>::new(-2, 45, 6);
    assert_eq!(a.add(b).sub(b), a);
    let c = Vector2::<i8>::new(-5, 4);
    let d = Vector2::<i8>::new(3, -9);
    assert_eq!(c.add(d).sub(d), c);
}

#[test]
fn negation_involution() {
    let a = Vector4::<i64>::new(-6, 0, 12, 5);
    assert_eq!(a.neg().neg(), a);
    assert_eq!(Vector3::<i32>::one().neg(), Vector3::new(-1, -1, -1));
}

#[test]
fn one_minus_identities() {
    assert_eq!(
        Vector2::<i32>::one().sub(Vector2::<i32>::zero()),
        Vector2::<i32>::one(),
    );
    assert_eq!(
        Vector4::<i32>::one().sub(Vector4::<i32>::unit_w()),
        Vector4::new(1, 1, 1, 0),
    );
}

#[test]
fn broadcast_operators() {
    assert_eq!(
        Vector4::<i32>::one().mul(Vector4::<i32>::unit_w()).mul_scalar(2),
        Vector4::new(0, 0, 0, 2),
    );
    assert_eq!(
        Vector4::<i32>::one().add(Vector4::<i32>::unit_w().mul_scalar(2)),
        Vector4::new(1, 1, 1, 3),
    );
    assert_eq!(
        Vector3::<i32>::one().neg().add(Vector3::<i32>::unit_y().mul_scalar(2)),
        Vector3::new(-1, 1, -1),
    );
    assert_eq!(Vector2::<u32>::new(8, 10).sub_scalar(3), Vector2::new(5, 7));
}

#[test]
fn assign_operators() {
    let mut v = Vector3::<i32>::new(1, 2, 3);
    v.add_assign(Vector3::new(10, 20, 30));
    assert_eq!(v, Vector3::new(11, 22, 33));
    v.sub_assign(Vector3::new(1, 2, 3));
    assert_eq!(v, Vector3::new(10, 20, 30));
    v.mul_assign(Vector3::new(2, 2, 2));
    assert_eq!(v, Vector3::new(20, 40, 60));
    v.div_assign(Vector3::new(10, 10, 10));
    assert_eq!(v, Vector3::new(2, 4, 6));
    v.add_assign_scalar(1);
    assert_eq!(v, Vector3::new(3, 5, 7));
    v.mul_assign_scalar(3);
    assert_eq!(v, Vector3::new(9, 15, 21));
    v.sub_assign_scalar(1);
    assert_eq!(v, Vector3::new(8, 14, 20));
    v.div_assign_scalar(2);
    assert_eq!(v, Vector3::new(4, 7, 10));
}

#[test]
fn division_truncates_toward_zero() {
    let v = Vector2::<i32>::new(7, -7);
    assert_eq!(v.div(Vector2::new(2, 2)), Vector2::new(3, -3));
    assert_eq!(v.div_scalar(-2), Vector2::new(-3, 3));
    assert_eq!(Vector2::<u32>::new(9, 10).div_scalar(3), Vector2::new(3, 3));
}

#[test]
fn dot_of_distinct_basis_vectors_is_zero() {
    assert_eq!(Vector3::<i32>::unit_x().dot(Vector3::<i32>::unit_y()), 0);
    assert_eq!(Vector3::<i64>::unit_y().dot(Vector3::<i64>::unit_z()), 0);
    assert_eq!(Vector2::<i16>::unit_x().dot(Vector2::<i16>::unit_y()), 0);
    assert_eq!(Vector4::<i32>::unit_z().dot(Vector4::<i32>::unit_w()), 0);
}

#[test]
fn dot_and_length() {
    let a = Vector3::<i32>::new(2, 3, 4);
    let b = Vector3::<i32>::new(5, 6, 7);
    assert_eq!(a.dot(b), 56);
    assert_eq!(a.length_sqrt(), 29);
    assert_eq!(Vector2::<i32>::new(3, 4).length_sqrt(), 25);
}

#[test]
fn cross_fixture() {
    let k = Vector3::<i64>::new(2, 3, 4).cross(Vector3::<i64>::new(5, 6, 7));
    assert_eq!(k, Vector3::<i64>::new(-3, 6, -3));
}

#[test]
fn lerp_endpoints_and_extrapolation() {
    let a = Vector2::<i32>::new(1, 2);
    let b = Vector2::<i32>::new(5, 10);
    assert_eq!(a.lerp(b, 0), a);
    assert_eq!(a.lerp(b, 1), b);
    assert_eq!(a.lerp(b, 2), Vector2::new(9, 18));
    let c = Vector4::<i64>::new(0, 4, -8, 100);
    let d = Vector4::<i64>::new(10, 0, 8, 50);
    assert_eq!(c.lerp(d, 0), c);
    assert_eq!(c.lerp(d, 1), d);
}

#[test]
fn element_wise_comparison() {
    let x = Vector3::<i32>::unit_x();
    let y = Vector3::<i32>::unit_y();
    assert_eq!(x.elem_eq(&y), Vector3::new(false, false, true));
    assert_eq!(x.elem_gt(&y), Vector3::new(true, false, false));
    assert_eq!(x.elem_lt(&y), Vector3::new(false, true, false));
    assert_eq!(x.elem_gte(&y), Vector3::new(true, false, true));
    assert_eq!(x.elem_lte(&y), Vector3::new(false, true, true));
}

#[test]
fn select_picks_per_position() {
    let mask = Vector2::<bool>::new(false, true);
    let a = Vector2::<i32>::one();
    let b = Vector2::<i32>::zero();
    assert_eq!(mask.select(&a, &b), Vector2::new(0, 1));
    let mask3 = Vector3::<bool>::new(true, false, true);
    let c = Vector3::<i64>::new(1, 2, 3);
    let d = Vector3::<i64>::new(40, 50, 60);
    assert_eq!(mask3.select(&c, &d), Vector3::new(1, 50, 3));
}

#[test]
fn all_and_any_reductions() {
    assert!(Vector2::<bool>::new(true, true).all());
    assert!(!Vector2::<bool>::new(true, false).all());
    assert!(Vector2::<bool>::new(false, true).any());
    assert!(!Vector2::<bool>::new(false, false).any());
    assert!(Vector3::<bool>::new(true, true, true).all());
    assert!(!Vector3::<bool>::new(true, true, false).all());
    assert!(Vector3::<bool>::new(false, false, true).any());
    assert!(!Vector3::<bool>::new(false, false, false).any());
    assert!(Vector4::<bool>::new(true, true, true, true).all());
    assert!(!Vector4::<bool>::new(false, true, true, true).all());
    assert!(Vector4::<bool>::new(false, false, false, true).any());
    assert!(!Vector4::<bool>::new(false, false, false, false).any());
}

#[test]
fn bitwise_operators() {
    let a = Vector3::<bool>::new(false, true, true);
    let b = Vector3::<bool>::new(true, false, true);
    assert_eq!(a.bitor(b), Vector3::new(true, true, true));
    assert_eq!(a.bitand(b), Vector3::new(false, false, true));
    assert_eq!(a.bitxor(b), Vector3::new(true, true, false));
    assert_eq!(a.bitnot(), Vector3::new(true, false, false));
    let c = Vector2::<u8>::new(0b1100, 0b1010);
    let d = Vector2::<u8>::new(0b1010, 0b0110);
    assert_eq!(c.bitand(d), Vector2::new(0b1000, 0b0010));
    assert_eq!(c.bitor(d), Vector2::new(0b1110, 0b1110));
    assert_eq!(c.bitxor(d), Vector2::new(0b0110, 0b1100));
}

#[test]
fn min_max_clamp() {
    let a = Vector3::<i32>::new(1, 9, 5);
    let b = Vector3::<i32>::new(4, 2, 5);
    assert_eq!(a.min(b), Vector3::new(1, 2, 5));
    assert_eq!(a.max(b), Vector3::new(4, 9, 5));
    let lo = Vector3::<i32>::new(2, 2, 2);
    let hi = Vector3::<i32>::new(6, 6, 6);
    assert_eq!(a.clamp(lo, hi), Vector3::new(2, 6, 5));
}

#[test]
fn component_casts() {
    let a = Vector2::<u8>::new(7, 255);
    assert_eq!(cast::<u8, u32>(a), Vector2::new(7u32, 255u32));
    let b = Vector3::<i32>::new(300, -1, 7);
    assert_eq!(cast3::<i32, i8>(b), Vector3::new(44i8, -1i8, 7i8));
    let c = Vector4::<u16>::new(260, 1, 2, 3);
    assert_eq!(cast4::<u16, u8>(c), Vector4::new(4u8, 1u8, 2u8, 3u8));
    assert_eq!(<i16 as Cast<i64>>::cast(5i16), 5i64);
}

#[test]
fn comparisons_on_unsigned_and_wide_types() {
    let a = Vector2::<u128>::new(1, u128::MAX);
    let b = Vector2::<u128>::new(1, 0);
    assert_eq!(a.elem_eq(&b), Vector2::new(true, false));
    assert_eq!(a.elem_gt(&b), Vector2::new(false, true));
    let c = Vector2::<i128>::new(i128::MIN, 3);
    let d = Vector2::<i128>::new(i128::MAX, 3);
    assert_eq!(c.elem_lt(&d), Vector2::new(true, false));
}

#[test]
fn remainder_sign_follows_dividend() {
    let v = Vector2::<i32>::new(7, -7);
    assert_eq!(v.rem(Vector2::new(3, 3)), Vector2::new(1, -1));
    assert_eq!(v.rem_scalar(-3), Vector2::new(1, -1));
    let mut w = Vector2::<u32>::new(9, 10);
    w.rem_assign(Vector2::new(4, 4));
    assert_eq!(w, Vector2::new(1, 2));
    w.rem_assign_scalar(2);
    assert_eq!(w, Vector2::new(1, 0));
}

#[test]
fn default_values() {
    assert_eq!(Vector2::<i32>::default(), Vector2::zero());
    assert_eq!(Vector3::<u8>::default(), Vector3::zero());
    assert_eq!(Vector4::<i64>::default(), Vector4::zero());
}
