use int_math::{Rect, URect, UVec2, Vec2, Vec3};

#[test]
fn add_then_sub_gives_back_the_vector() {
    let a = UVec2::new(1000, 7);
    let b = UVec2::new(64000, 3);
    assert_eq!((a + b) - b, a);
}

#[test]
fn add_reaches_the_largest_value() {
    let r = UVec2::new(65000, 0) + UVec2::new(535, 65535);
    assert_eq!(r, UVec2::new(65535, 65535));
}

#[test]
fn mul_then_div_gives_back_the_vector() {
    let v = UVec2::new(4, 6);
    let scaled = v * 2;
    assert_eq!(scaled, UVec2::new(8, 12));
    assert_eq!(scaled / 2, v);
}

#[test]
fn signed_mul_then_div_gives_back_the_vector() {
    let v = Vec2::new(-4, 6);
    assert_eq!((v * -3) / -3, v);
    let w = Vec3::new(-4, 6, 0);
    assert_eq!((w * 5) / 5, w);
}

#[test]
fn sub_to_zero() {
    assert_eq!(UVec2::new(5, 9) - UVec2::new(5, 9), UVec2::new(0, 0));
}

#[test]
fn div_by_one_and_of_zero() {
    assert_eq!(UVec2::new(5, 9) / 1, UVec2::new(5, 9));
    assert_eq!(UVec2::new(0, 0) / 7, UVec2::new(0, 0));
}

#[test]
fn signed_div_truncates_toward_zero() {
    assert_eq!(Vec2::new(-7, 7) / 2, Vec2::new(-3, 3));
    assert_eq!(Vec2::new(-7, 7) / -2, Vec2::new(3, -3));
    assert_eq!(Vec3::new(-9, 9, 1) / 4, Vec3::new(-2, 2, 0));
    assert_eq!(Vec2::new(i16::MIN, 0) / 1, Vec2::new(i16::MIN, 0));
}

#[test]
fn signed_add_sub_mul() {
    assert_eq!(Vec2::new(-5, 9) + Vec2::new(7, -11), Vec2::new(2, -2));
    assert_eq!(Vec2::new(-5, 9) - Vec2::new(7, -11), Vec2::new(-12, 20));
    assert_eq!(Vec2::new(-5, 9) * -2, Vec2::new(10, -18));
    assert_eq!(Vec3::new(1, 2, 3) + Vec3::new(-1, -2, -3), Vec3::new(0, 0, 0));
    assert_eq!(Vec3::new(1, 2, 3) - Vec3::new(4, 4, 4), Vec3::new(-3, -2, -1));
    assert_eq!(Vec3::new(1, -2, 3) * 3, Vec3::new(3, -6, 9));
}

#[test]
fn vectors_from_tuples() {
    let u = UVec2::from((3, 65535));
    assert_eq!(u.x, 3);
    assert_eq!(u.y, 65535);
    let s: Vec2 = (-32768, 32767).into();
    assert_eq!(s.x, -32768);
    assert_eq!(s.y, 32767);
    let t = Vec3::from((-1, 2, -3));
    assert_eq!(t, Vec3::new(-1, 2, -3));
}

#[test]
fn vec3_from_vec2_has_zero_depth() {
    assert_eq!(Vec3::from(Vec2::new(-5, 10)), Vec3::new(-5, 10, 0));
}

#[test]
fn urect_new_and_parts() {
    let rect = URect::new(10, 20, 30, 40);
    assert_eq!(rect.position, UVec2::new(10, 20));
    assert_eq!(rect.size, UVec2::new(30, 40));
    let same = URect::with_position_and_size(UVec2::new(10, 20), UVec2::new(30, 40));
    assert_eq!(same.position, rect.position);
    assert_eq!(same.size, rect.size);
}

#[test]
fn urect_center() {
    assert_eq!(URect::new(10, 20, 30, 40).center(), UVec2::new(25, 40));
}

#[test]
fn urect_center_of_odd_size_rounds_down() {
    assert_eq!(URect::new(0, 0, 3, 5).center(), UVec2::new(1, 2));
    assert_eq!(URect::new(7, 7, 1, 0).center(), UVec2::new(7, 7));
}

#[test]
fn urect_with_offset() {
    let moved = URect::new(10, 20, 30, 40).with_offset(UVec2::new(5, 5));
    assert_eq!(moved.position, UVec2::new(15, 25));
    assert_eq!(moved.size, UVec2::new(30, 40));
}

#[test]
fn urect_from_tuple() {
    let rect = URect::from((1, 2, 3, 4));
    assert_eq!(rect.position, UVec2::new(1, 2));
    assert_eq!(rect.size, UVec2::new(3, 4));
}

#[test]
fn rect_new_and_parts() {
    let rect = Rect::new(-10, 20, 30, 40);
    assert_eq!(rect.position, Vec2::new(-10, 20));
    assert_eq!(rect.size, UVec2::new(30, 40));
    let same = Rect::with_position_and_size(Vec2::new(-10, 20), UVec2::new(30, 40));
    assert_eq!(same.position, rect.position);
    assert_eq!(same.size, rect.size);
}

#[test]
fn rect_center() {
    assert_eq!(Rect::new(10, 20, 30, 40).center(), Vec2::new(25, 40));
    assert_eq!(Rect::new(-10, -20, 31, 41).center(), Vec2::new(5, 0));
}

#[test]
fn rect_center_of_a_wide_size() {
    assert_eq!(Rect::new(-32768, 0, 65535, 2).center(), Vec2::new(-1, 1));
}

#[test]
fn rect_with_offset() {
    let moved = Rect::new(10, 20, 30, 40).with_offset(Vec2::new(5, -5));
    assert_eq!(moved.position, Vec2::new(15, 15));
    assert_eq!(moved.size, UVec2::new(30, 40));
}

#[test]
fn rect_from_tuple() {
    let rect = Rect::from((-1, -2, 3, 4));
    assert_eq!(rect.position, Vec2::new(-1, -2));
    assert_eq!(rect.size, UVec2::new(3, 4));
}
