use qrgl::math::vector::AxisIndex;
use qrgl::math::vector::Backward;
use qrgl::math::vector::Down;
use qrgl::math::vector::Forward;
use qrgl::math::vector::Left;
use qrgl::math::vector::Right;
use qrgl::math::vector::Up;
use qrgl::math::vector::Vec2i;
use qrgl::math::vector::Vec3i;
use qrgl::math::vector::Vec4i;
use qrgl::math::vector::Vector;
use qrgl::math::vector::W;
use qrgl::math::vector::X;
use qrgl::math::vector::Y;
use qrgl::math::vector::Z;

#[test]
fn math_test_2d() {
    let v = Vec2i::left();
    let v2 = Vec2i::right();
    let v3 = Vec2i::up();
    let v4 = Vec2i::down();
    println!("{:?}", v);
    println!("{:?}", v2);
    println!("{:?}", v3);
    println!("{:?}", v4);

    println!("X: {}, Y: {}, Z: N/A, W: N/A", v.index(X), v.index(Y));
}

#[test]
fn math_test_3d() {
    let v = Vec3i::left();
    let v2 = Vec3i::right();
    let v3 = Vec3i::up();
    let v4 = Vec3i::down();
    let v5 = Vec3i::fwd();
    let v6 = Vec3i::back();
    println!("{:?}", v);
    println!("{:?}", v2);
    println!("{:?}", v3);
    println!("{:?}", v4);
    println!("{:?}", v5);
    println!("{:?}", v6);

    println!("X: {}, Y: {}, Z: {}, W: N/A", v.index(X), v.index(Y), v.index(Z));
}

#[test]
fn math_test_4d() {
    let v1 = Vec4i::left();
    let v2 = Vec4i::right();
    let v3 = Vec4i::up();
    let v4 = Vec4i::down();
    let v5 = Vec4i::fwd();
    let v6 = Vec4i::back();
    println!("{:?}", v1);
    println!("{:?}", v2);
    println!("{:?}", v3);
    println!("{:?}", v4);
    println!("{:?}", v5);
    println!("{:?}", v6);

    println!("X: {}, Y: {}, Z: {}, W: {}", v1.index(X), v1.index(Y), v1.index(Z), v1.index(W));
}

#[test]
fn vector_test_2d() {
    let v = Vec2i::left();
    let v2 = Vec2i::right();
    let v3 = Vec2i::up();
    let v4 = Vec2i::down();
    println!("{:?}", v);
    println!("{:?}", v2);
    println!("{:?}", v3);
    println!("{:?}", v4);

    println!("X: {}, Y: {}, Z: N/A, W: N/A", v.index(X), v.index(Y));
}

#[test]
fn vector_test_3d() {
    let v = Vec3i::left();
    let v2 = Vec3i::right();
    let v3 = Vec3i::up();
    let v4 = Vec3i::down();
    let v5 = Vec3i::fwd();
    let v6 = Vec3i::back();
    println!("{:?}", v);
    println!("{:?}", v2);
    println!("{:?}", v3);
    println!("{:?}", v4);
    println!("{:?}", v5);
    println!("{:?}", v6);

    println!("X: {}, Y: {}, Z: {}, W: N/A", v.index(X), v.index(Y), v.index(Z));
}

#[test]
fn vector_test_4d() {
    let v1 = Vec4i::left();
    let v2 = Vec4i::right();
    let v3 = Vec4i::up();
    let v4 = Vec4i::down();
    let v5 = Vec4i::fwd();
    let v6 = Vec4i::back();
    println!("{:?}", v1);
    println!("{:?}", v2);
    println!("{:?}", v3);
    println!("{:?}", v4);
    println!("{:?}", v5);
    println!("{:?}", v6);

    println!("X: {}, Y: {}, Z: {}, W: {}", v1.index(X), v1.index(Y), v1.index(Z), v1.index(W));
}

#[test]
fn test_vec_add() {
    let v = Vec2i::from([4, 5]);
    let v2 = Vec2i::from([7, 12]);

    let v3 = v.add(v2);

    println!("{:?}", v3);
    assert!(v3.index(X) == 11);
    assert!(v3.index(Y) == 17);
}

#[test]
fn test_vec_sub() {
    let v = Vec2i::from([4, 5]);
    let v2 = Vec2i::from([7, 12]);

    let v3 = v.sub(v2);

    println!("{:?}", v3);
    assert!(v3.index(X) == -3);
    assert!(v3.index(Y) == -7);
}

#[test]
fn test_vec_mul() {
    let v = Vec2i::from([4, 5]);
    let v2 = 5;

    let v3 = v.mul(v2);

    println!("{:?}", v3);
    assert!(v3.index(X) == 20);
    assert!(v3.index(Y) == 25);
}

#[test]
fn test_vec_div() {
    let v = Vec2i::from([30, 25]);
    let v2 = 5;

    let v3 = v.div(v2);

    println!("{:?}", v3);
    assert!(v3.index(X) == 6);
    assert!(v3.index(Y) == 5);
}

#[test]
fn direction_units_every_dimension() {
    // Each directional accessor puts its signed unit at exactly the
    // designated axis slot and zero elsewhere, for every dimension that
    // offers the axis.
    assert_eq!(components2(Vec2i::left()), [-1, 0]);
    assert_eq!(components2(Vec2i::right()), [1, 0]);
    assert_eq!(components2(Vec2i::up()), [0, 1]);
    assert_eq!(components2(Vec2i::down()), [0, -1]);

    assert_eq!(components3(Vec3i::left()), [-1, 0, 0]);
    assert_eq!(components3(Vec3i::right()), [1, 0, 0]);
    assert_eq!(components3(Vec3i::up()), [0, 1, 0]);
    assert_eq!(components3(Vec3i::down()), [0, -1, 0]);
    assert_eq!(components3(Vec3i::fwd()), [0, 0, 1]);
    assert_eq!(components3(Vec3i::back()), [0, 0, -1]);

    assert_eq!(components4(Vec4i::left()), [-1, 0, 0, 0]);
    assert_eq!(components4(Vec4i::right()), [1, 0, 0, 0]);
    assert_eq!(components4(Vec4i::up()), [0, 1, 0, 0]);
    assert_eq!(components4(Vec4i::down()), [0, -1, 0, 0]);
    assert_eq!(components4(Vec4i::fwd()), [0, 0, 1, 0]);
    assert_eq!(components4(Vec4i::back()), [0, 0, -1, 0]);
}

fn components2(v: Vec2i) -> [i32; 2] {
    [v.get(0), v.get(1)]
}

fn components3(v: Vec3i) -> [i32; 3] {
    [v.get(0), v.get(1), v.get(2)]
}

fn components4(v: Vec4i) -> [i32; 4] {
    [v.get(0), v.get(1), v.get(2), v.get(3)]
}

#[test]
fn div_truncates_toward_zero() {
    let v = Vec2i::from([-7, 7]);
    let v2 = v.div(2);
    assert_eq!(components2(v2), [-3, 3]);
    let v3 = Vec2i::from([-7, 7]).div(-2);
    assert_eq!(components2(v3), [3, -3]);
}

#[test]
fn new_and_default_are_zero() {
    let v = Vec3i::new();
    assert_eq!(components3(v), [0, 0, 0]);
    let d: Vec2i = Default::default();
    assert_eq!(components2(d), [0, 0]);
}

#[test]
fn set_replaces_one_component() {
    let mut v = Vec4i::new();
    v.set(2, 9);
    assert_eq!(components4(v), [0, 0, 9, 0]);
    v.set(0, -4);
    assert_eq!(components4(v), [-4, 0, 9, 0]);
}

#[test]
fn len_matches_dimension() {
    assert_eq!(Vec2i::len(), 2);
    assert_eq!(Vec3i::len(), 3);
    assert_eq!(Vec4i::len(), 4);
    assert_eq!(Vector::<i32, 7>::len(), 7);
}

#[test]
fn from_array_keeps_components() {
    let v = Vector::<i32, 5>::from([3, 1, 4, 1, 5]);
    assert_eq!(v.get(0), 3);
    assert_eq!(v.get(4), 5);
}
