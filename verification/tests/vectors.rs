use planar_motion::vector::{narrow, Vec2};

#[test]
fn new_and_zero() {
    assert_eq!(Vec2::new(3, -4), Vec2 { x: 3, y: -4 });
    assert_eq!(Vec2::zero(), Vec2 { x: 0, y: 0 });
}

#[test]
fn narrow_accepts_exactly_the_range() {
    assert_eq!(narrow(5, -7), Some(Vec2 { x: 5, y: -7 }));
    assert_eq!(
        narrow(i32::MAX as i128, i32::MIN as i128),
        Some(Vec2 { x: i32::MAX, y: i32::MIN })
    );
    assert_eq!(narrow(i32::MAX as i128 + 1, 0), None);
    assert_eq!(narrow(0, i32::MIN as i128 - 1), None);
    assert_eq!(narrow(i128::MAX, i128::MIN), None);
}

#[test]
fn checked_add_and_sub() {
    let a = Vec2::new(10, -20);
    let b = Vec2::new(-3, 5);
    assert_eq!(a.checked_add(b), Some(Vec2::new(7, -15)));
    assert_eq!(a.checked_sub(b), Some(Vec2::new(13, -25)));
    assert_eq!(Vec2::new(i32::MAX, 0).checked_add(Vec2::new(1, 0)), None);
    assert_eq!(Vec2::new(0, i32::MIN).checked_sub(Vec2::new(0, 1)), None);
    assert_eq!(
        Vec2::new(i32::MAX, i32::MIN).checked_add(Vec2::new(0, 0)),
        Some(Vec2::new(i32::MAX, i32::MIN))
    );
}

#[test]
fn dot_products() {
    assert_eq!(Vec2::new(3, 4).dot(Vec2::new(-4, 3)), 0);
    assert_eq!(Vec2::new(3, 4).dot(Vec2::new(3, 4)), 25);
    assert_eq!(Vec2::new(2, 5).dot(Vec2::new(-7, 11)), 41);
    let m = Vec2::new(i32::MIN, i32::MIN);
    assert_eq!(m.dot(m), 1i128 << 63);
}

#[test]
fn squared_lengths() {
    assert_eq!(Vec2::new(3, 4).length_squared(), 25);
    assert_eq!(Vec2::new(0, 0).length_squared(), 0);
    assert_eq!(Vec2::new(70, 100).length_squared(), 14_900);
    assert_eq!(Vec2::new(i32::MIN, i32::MIN).length_squared(), 1u64 << 63);
}

#[test]
fn zero_test() {
    assert!(Vec2::new(0, 0).is_zero());
    assert!(!Vec2::new(0, 1).is_zero());
    assert!(!Vec2::new(-1, 0).is_zero());
}
