use program_core::Vector2;
use program_core::FP_HALF_PI;
use program_core::FP_QUARTER_PI;

fn close(raw: i64, expected: f64, tol: f64) -> bool {
    ((raw as f64) / 1_000_000.0 - expected).abs() <= tol
}

#[test]
fn test_vector2() {
    let v = Vector2::new(1_000_000, 1_000_000);

    assert_eq!(1_414_213, v.len());
    assert!(close(v.len(), 2f64.sqrt(), 1e-4));
    assert_eq!(FP_QUARTER_PI, v.arg());
    assert!(close(v.arg(), std::f64::consts::FRAC_PI_4, 1e-4));
}

#[test]
fn test_vector2_dot() {
    let v1 = Vector2::new(1_000_000, 1_000_000);
    let v2 = Vector2::new(2_000_000, 2_000_000);

    assert_eq!(4_000_000, v1.dot(v2));
    assert_eq!(v1.dot(v2), v2.dot(v1));

    let v1 = Vector2::new(0, 1_000_000);
    let v2 = Vector2::new(1_000_000, 0);

    assert_eq!(0, v1.dot(v2));
}

#[test]
fn test_vector2_cross() {
    let v1 = Vector2::new(0, 1_000_000);
    let v2 = Vector2::new(1_000_000, 0);

    assert_eq!(-1_000_000, v1.cross(v2));
    assert_eq!(v1.cross(v2), -v2.cross(v1));

    let v2 = Vector2::new(0, 2_000_000);

    assert_eq!(0, v1.cross(v2));
}

#[test]
fn test_vector2_translate() {
    let mut v1 = Vector2::new(0, 0);
    let offset = Vector2::new(1_000_000, 1_000_000);

    v1.translate(offset);

    assert_eq!(Vector2::new(1_000_000, 1_000_000), v1);
    assert_eq!(1_414_213, v1.len());
    assert_eq!(FP_QUARTER_PI, v1.arg());
}

#[test]
fn test_vector2_rotate() {
    let mut v1 = Vector2::new(1_000_000, 1_000_000);

    v1.rotate(FP_QUARTER_PI);

    assert_eq!(Vector2::new(0, 1_414_213), v1);
    assert_eq!(1_414_213, v1.len());
    assert_eq!(FP_HALF_PI, v1.arg());
}

#[test]
fn test_vector2_scale() {
    let mut v1 = Vector2::new(1_000_000, 1_000_000);

    v1.scale(2_000_000);

    assert!(v1.equals_vector(Vector2::new(2_000_000, 2_000_000)));
    assert!(v1.equals_tuple((2_000_000, 2_000_000)));
    assert_eq!(2_828_426, v1.len());
    assert!(close(v1.len(), 8f64.sqrt(), 1e-4));
    assert_eq!(FP_QUARTER_PI, v1.arg());
}

#[test]
fn test_rotate_round_trip_restores_coordinates() {
    let mut v = Vector2::new(3_000_000, 4_000_000);
    v.rotate(0);
    let canonical = v;

    v.rotate(1_234_567);
    v.rotate(-1_234_567);

    assert_eq!(canonical, v);
    assert_eq!(canonical.x(), v.x());
    assert_eq!(canonical.y(), v.y());
}

#[test]
fn test_rotate_round_trip_within_epsilon_for_fresh_vectors() {
    let mut v = Vector2::new(1_000_000, 1_000_000);

    v.rotate(FP_QUARTER_PI);
    v.rotate(-FP_QUARTER_PI);

    assert!(v.equals_vector(Vector2::new(1_000_000, 1_000_000)));
    assert_eq!(1_414_213, v.len());
    assert_eq!(FP_QUARTER_PI, v.arg());
}

#[test]
fn test_rotate_round_trip_within_epsilon_at_canvas_scale() {
    let mut v = Vector2::new(540_000_000, 540_000_000);
    v.rotate(1_234_567);
    v.rotate(-1_234_567);
    assert!(v.equals_vector(Vector2::new(540_000_000, 540_000_000)));

    let mut w = Vector2::new(960_000_000, 540_000_000);
    w.rotate(2_000_000);
    w.rotate(-2_000_000);
    assert!(w.equals_vector(Vector2::new(960_000_000, 540_000_000)));
}

#[test]
fn test_dot_and_cross_symmetry_more_pairs() {
    let pairs = [
        (Vector2::new(3_000_000, -4_000_000), Vector2::new(-7_000_000, 2_500_000)),
        (Vector2::new(1, 2), Vector2::new(3, 4)),
        (Vector2::new(-1_000_000, 0), Vector2::new(0, -1_000_000)),
    ];
    for (v, w) in pairs {
        assert_eq!(v.dot(w), w.dot(v));
        assert_eq!(v.cross(w), -w.cross(v));
    }
}

#[test]
fn test_equals_vector_is_approximate() {
    let a = Vector2::new(0, 0);
    let b = Vector2::new(600, 0);
    let c = Vector2::new(1_200, 0);

    assert!(a.equals_vector(b));
    assert!(b.equals_vector(c));
    assert!(!a.equals_vector(c));
}

#[test]
fn test_vector2_to_string() {
    assert_eq!("(1, -0.5)", Vector2::new(1_000_000, -500_000).to_string());
    assert_eq!("(0, 0.123456)", Vector2::new(0, 123_456).to_string());
}
