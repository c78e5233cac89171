use planar_motion::relation::{
    classify, facing_alignment, round_trip, squared_distance, to_local, to_world, Alignment,
    Containment, Offset,
};
use planar_motion::vector::Vec2;

fn value(a: Alignment) -> f64 {
    if a.norms == 0 {
        0.0
    } else {
        a.dot as f64 / (a.norms as f64).sqrt()
    }
}

#[test]
fn squared_distance_values() {
    assert_eq!(squared_distance(Vec2::new(0, 0), Vec2::new(3, 4)), 25);
    assert_eq!(squared_distance(Vec2::new(3, 4), Vec2::new(0, 0)), 25);
    assert_eq!(squared_distance(Vec2::new(7, 7), Vec2::new(7, 7)), 0);
    assert_eq!(
        squared_distance(Vec2::new(i32::MIN, i32::MIN), Vec2::new(i32::MAX, i32::MAX)),
        2 * ((1u128 << 32) - 1) * ((1u128 << 32) - 1)
    );
}

#[test]
fn boundary_distance_is_outside() {
    // Thousandths of a unit: half width 50.0, distance exactly 50.0.
    assert_eq!(classify(Vec2::new(50_000, 0), Vec2::new(0, 0), 50_000), Containment::Outside);
    assert_eq!(classify(Vec2::new(30_000, 40_000), Vec2::new(0, 0), 50_000), Containment::Outside);
    assert_eq!(classify(Vec2::new(50, 0), Vec2::new(0, 0), 50), Containment::Outside);
}

#[test]
fn just_below_boundary_is_inside() {
    // Distance 49.999 against half width 50.0.
    assert_eq!(classify(Vec2::new(49_999, 0), Vec2::new(0, 0), 50_000), Containment::Inside);
    assert_eq!(classify(Vec2::new(0, -49_999), Vec2::new(0, 0), 50_000), Containment::Inside);
    assert_eq!(classify(Vec2::new(30_000, 39_999), Vec2::new(0, 0), 50_000), Containment::Inside);
}

#[test]
fn containment_is_relative_to_the_target() {
    let target = Vec2::new(-50_000, 100_000);
    assert_eq!(classify(Vec2::new(-50_000, 100_000), target, 50_000), Containment::Inside);
    assert_eq!(classify(Vec2::new(-20_000, 60_001), target, 50_000), Containment::Inside);
    assert_eq!(classify(Vec2::new(-20_000, 60_000), target, 50_000), Containment::Outside);
    assert_eq!(classify(Vec2::new(0, 0), target, 50_000), Containment::Outside);
}

#[test]
fn zero_half_side_contains_nothing() {
    assert_eq!(classify(Vec2::new(0, 0), Vec2::new(0, 0), 0), Containment::Outside);
    assert_eq!(classify(Vec2::new(0, 0), Vec2::new(0, 0), 1), Containment::Inside);
}

#[test]
fn containment_at_the_extremes() {
    let a = Vec2::new(i32::MIN, i32::MIN);
    let b = Vec2::new(i32::MAX, i32::MAX);
    assert_eq!(classify(a, b, u32::MAX), Containment::Outside);
    assert_eq!(classify(a, Vec2::new(i32::MAX, i32::MIN), u32::MAX), Containment::Outside);
    assert_eq!(classify(a, Vec2::new(i32::MAX - 1, i32::MIN), u32::MAX), Containment::Inside);
}

#[test]
fn alignment_of_identical_vectors_is_one() {
    let a = facing_alignment(Vec2::new(120, 35), Vec2::new(120, 35));
    assert!(a.dot > 0);
    assert_eq!((a.dot * a.dot) as u128, a.norms);
    assert!((value(a) - 1.0).abs() < 1e-6);
    assert_eq!(a.signum(), 1);
}

#[test]
fn alignment_of_opposite_vectors_is_minus_one() {
    let a = facing_alignment(Vec2::new(120, 35), Vec2::new(-120, -35));
    assert!(a.dot < 0);
    assert_eq!((a.dot * a.dot) as u128, a.norms);
    assert!((value(a) + 1.0).abs() < 1e-6);
    assert_eq!(a.signum(), -1);
}

#[test]
fn alignment_with_zero_vector_is_zero() {
    let a = facing_alignment(Vec2::new(0, 0), Vec2::new(-50, 100));
    assert_eq!(a, Alignment { dot: 0, norms: 0 });
    assert_eq!(value(a), 0.0);
    let b = facing_alignment(Vec2::new(120, 0), Vec2::new(0, 0));
    assert_eq!(b, Alignment { dot: 0, norms: 0 });
    let c = facing_alignment(Vec2::new(0, 0), Vec2::new(0, 0));
    assert_eq!(c, Alignment { dot: 0, norms: 0 });
    assert_eq!(c.signum(), 0);
}

#[test]
fn alignment_exact_parts() {
    let a = facing_alignment(Vec2::new(120, 0), Vec2::new(-50, 100));
    assert_eq!(a.dot, -6_000);
    assert_eq!(a.norms, 14_400 * 12_500);
    assert!((value(a) - (-0.4472135955)).abs() < 1e-6);
    let p = facing_alignment(Vec2::new(3, 4), Vec2::new(-4, 3));
    assert_eq!(p, Alignment { dot: 0, norms: 625 });
    assert_eq!(p.signum(), 0);
}

#[test]
fn alignment_is_symmetric_under_negating_both() {
    let pairs = [
        (Vec2::new(120, 0), Vec2::new(-50, 100)),
        (Vec2::new(1, 2), Vec2::new(3, 4)),
        (Vec2::new(-7, 9), Vec2::new(0, 5)),
        (Vec2::new(0, 0), Vec2::new(8, -8)),
    ];
    for (p, r) in pairs {
        let a = facing_alignment(p, r);
        let b = facing_alignment(Vec2::new(-p.x, -p.y), Vec2::new(-r.x, -r.y));
        assert_eq!(a, b);
        assert!((a.dot * a.dot) as u128 <= a.norms);
        assert!(value(a) >= -1.0 && value(a) <= 1.0);
    }
}

#[test]
fn alignment_at_the_extremes() {
    let m = Vec2::new(i32::MIN, i32::MIN);
    let a = facing_alignment(m, m);
    assert_eq!(a.dot, 1i128 << 63);
    assert_eq!(a.norms, 1u128 << 126);
}

#[test]
fn local_and_back() {
    let p = Vec2::new(120, 0);
    let r = Vec2::new(-50, 100);
    let local = to_local(p, r);
    assert_eq!(local, Offset { dx: -170, dy: 100 });
    assert_eq!(to_world(r, local), Some(p));
    assert_eq!(round_trip(p, r), Some(p));
}

#[test]
fn round_trip_returns_the_player_everywhere() {
    let points = [
        Vec2::new(0, 0),
        Vec2::new(120, 0),
        Vec2::new(-50, 100),
        Vec2::new(i32::MAX, i32::MIN),
        Vec2::new(i32::MIN, i32::MAX),
        Vec2::new(i32::MIN, i32::MIN),
    ];
    for p in points {
        for r in points {
            assert_eq!(round_trip(p, r), Some(p));
            let back = round_trip(p, r).unwrap();
            assert!((back.x as f64 - p.x as f64).abs() < 1e-5);
            assert!((back.y as f64 - p.y as f64).abs() < 1e-5);
        }
    }
}

#[test]
fn to_world_out_of_range_is_none() {
    let r = Vec2::new(i32::MAX, 0);
    assert_eq!(to_world(r, Offset { dx: -1, dy: 0 }), None);
    assert_eq!(to_world(r, Offset { dx: 0, dy: i64::MIN }), None);
    assert_eq!(to_world(r, Offset { dx: 0, dy: 0 }), Some(r));
    assert_eq!(to_world(Vec2::new(5, 5), Offset { dx: 2, dy: 9 }), Some(Vec2::new(3, -4)));
}
