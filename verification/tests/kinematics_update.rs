use planar_motion::input::{MoveKeys, TurnKeys};
use planar_motion::kinematics::{normalize_angle, MotionError, MovableEntity, Transform2D, FULL_TURN};
use planar_motion::vector::Vec2;

fn keys(up: bool, down: bool, left: bool, right: bool) -> MoveKeys {
    MoveKeys { up, down, left, right }
}

fn player(x: i32, y: i32, speed: i32, angular_speed: Option<i32>) -> MovableEntity {
    MovableEntity { transform: Transform2D::at(Vec2::new(x, y)), speed, angular_speed }
}

#[test]
fn fresh_transform_is_unrotated_unit_scale() {
    let t = Transform2D::at(Vec2::new(120, 0));
    assert_eq!(t.position, Vec2::new(120, 0));
    assert_eq!(t.rotation, 0);
    assert_eq!(t.scale, Vec2::new(1, 1));
}

#[test]
fn diagonal_move_is_faster_than_axis_move() {
    let mut p = player(0, 0, 300, None);
    assert_eq!(p.translate(keys(true, false, false, true), 1), Ok(()));
    assert_eq!(p.transform.position, Vec2::new(300, 300));
    let magnitude = (p.transform.position.length_squared() as f64).sqrt();
    assert!((magnitude - 424.26).abs() < 0.01);
    assert!((magnitude - 300.0).abs() > 100.0);
}

#[test]
fn delta_magnitude_for_every_key_combination() {
    let speed: i32 = 300;
    let elapsed: u32 = 7;
    for bits in 0..16u32 {
        let k = keys(bits & 1 != 0, bits & 2 != 0, bits & 4 != 0, bits & 8 != 0);
        let d = k.direction();
        let mut p = player(1_000, -2_000, speed, Some(5));
        assert_eq!(p.translate(k, elapsed), Ok(()));
        let dx = (p.transform.position.x - 1_000) as i64;
        let dy = (p.transform.position.y + 2_000) as i64;
        assert_eq!(dx, d.x as i64 * 2_100);
        assert_eq!(dy, d.y as i64 * 2_100);
        let axes = (d.x as i64) * (d.x as i64) + (d.y as i64) * (d.y as i64);
        assert_eq!(dx * dx + dy * dy, 2_100 * 2_100 * axes);
        let hypot = ((d.x as f64).powi(2) + (d.y as f64).powi(2)).sqrt();
        let magnitude = ((dx * dx + dy * dy) as f64).sqrt();
        assert!((magnitude - speed as f64 * elapsed as f64 * hypot).abs() < 1e-6);
        assert_eq!(p.transform.rotation, 0);
        assert_eq!(p.speed, speed);
        assert_eq!(p.angular_speed, Some(5));
    }
}

#[test]
fn translate_with_zero_elapsed_stays() {
    let mut p = player(12, 34, 300, None);
    assert_eq!(p.translate(keys(true, false, true, false), 0), Ok(()));
    assert_eq!(p.transform.position, Vec2::new(12, 34));
}

#[test]
fn translate_with_negative_speed_reverses() {
    let mut p = player(0, 0, -10, None);
    assert_eq!(p.translate(keys(true, false, false, false), 3), Ok(()));
    assert_eq!(p.transform.position, Vec2::new(0, -30));
}

#[test]
fn translate_out_of_range_changes_nothing() {
    let mut p = player(i32::MAX - 5, 0, 1, Some(1));
    let before = p;
    assert_eq!(p.translate(keys(false, false, false, true), 6), Err(MotionError::OutOfRange));
    assert_eq!(p, before);
    assert_eq!(p.translate(keys(false, false, false, true), 5), Ok(()));
    assert_eq!(p.transform.position, Vec2::new(i32::MAX, 0));
}

#[test]
fn translate_with_extreme_factors() {
    let mut p = player(0, 0, i32::MIN, None);
    assert_eq!(p.translate(keys(true, false, false, false), u32::MAX), Err(MotionError::OutOfRange));
    assert_eq!(p.transform.position, Vec2::new(0, 0));
    assert_eq!(p.translate(keys(true, true, true, true), u32::MAX), Ok(()));
    assert_eq!(p.transform.position, Vec2::new(0, 0));
}

#[test]
fn half_second_at_one_turn_per_second_is_half_a_turn() {
    // 360 thousandths of a degree per millisecond is one turn per second.
    let mut p = player(0, 0, 300, Some(360));
    p.rotate(TurnKeys { increase: true, decrease: false }, 500);
    assert_eq!(p.transform.rotation, FULL_TURN / 2);
    assert_eq!(p.transform.rotation, 180_000);
    assert_eq!(p.transform.position, Vec2::new(0, 0));
}

#[test]
fn rotation_wraps_within_one_turn() {
    let mut p = player(0, 0, 300, Some(360));
    p.transform.rotation = 270_000;
    p.rotate(TurnKeys { increase: true, decrease: false }, 500);
    assert_eq!(p.transform.rotation, 90_000);
    p.rotate(TurnKeys { increase: false, decrease: true }, 500);
    assert_eq!(p.transform.rotation, 270_000);
    p.rotate(TurnKeys { increase: true, decrease: false }, 1_000);
    assert_eq!(p.transform.rotation, 270_000);
}

#[test]
fn rotation_decrease_from_zero_wraps_below() {
    let mut p = player(0, 0, 300, Some(1));
    p.rotate(TurnKeys { increase: false, decrease: true }, 1);
    assert_eq!(p.transform.rotation, 359_999);
}

#[test]
fn rotation_ignores_cancelled_keys_and_missing_speed() {
    let mut p = player(0, 0, 300, Some(360));
    p.transform.rotation = 45_000;
    p.rotate(TurnKeys { increase: true, decrease: true }, 500);
    assert_eq!(p.transform.rotation, 45_000);
    p.rotate(TurnKeys { increase: false, decrease: false }, 500);
    assert_eq!(p.transform.rotation, 45_000);
    let mut q = player(0, 0, 300, None);
    q.transform.rotation = 45_000;
    q.rotate(TurnKeys { increase: true, decrease: false }, 500);
    assert_eq!(q.transform.rotation, 45_000);
}

#[test]
fn normalize_angle_matches_euclidean_remainder() {
    assert_eq!(normalize_angle(0), 0);
    assert_eq!(normalize_angle(359_999), 359_999);
    assert_eq!(normalize_angle(360_000), 0);
    assert_eq!(normalize_angle(360_001), 1);
    assert_eq!(normalize_angle(-1), 359_999);
    assert_eq!(normalize_angle(-360_000), 0);
    assert_eq!(normalize_angle(-360_001), 359_999);
    assert_eq!(normalize_angle(-720_000), 0);
    assert_eq!(normalize_angle(i128::MAX), i128::MAX.rem_euclid(360_000) as i32);
    assert_eq!(normalize_angle(i128::MIN), i128::MIN.rem_euclid(360_000) as i32);
    assert_eq!(normalize_angle(i128::MIN + 1), (i128::MIN + 1).rem_euclid(360_000) as i32);
}

#[test]
fn step_moves_then_turns() {
    let mut p = player(120_000, 0, 300, Some(360));
    let r = p.step(keys(true, false, false, true), TurnKeys { increase: true, decrease: false }, 500);
    assert_eq!(r, Ok(()));
    assert_eq!(p.transform.position, Vec2::new(270_000, 150_000));
    assert_eq!(p.transform.rotation, 180_000);
    assert_eq!(p.transform.scale, Vec2::new(1, 1));
}

#[test]
fn step_out_of_range_changes_nothing() {
    let mut p = player(i32::MIN, 0, 1, Some(360));
    let before = p;
    let r = p.step(keys(false, false, true, false), TurnKeys { increase: true, decrease: false }, 1);
    assert_eq!(r, Err(MotionError::OutOfRange));
    assert_eq!(p, before);
}
