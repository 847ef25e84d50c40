use program_core::Circle;
use program_core::Line;
use program_core::Rect2;
use program_core::Text;
use program_core::Vector2;
use program_core::FP_HALF_PI;
use program_core::FP_QUARTER_PI;

fn close(raw: i64, expected: f64, tol: f64) -> bool {
    ((raw as f64) / 1_000_000.0 - expected).abs() <= tol
}

#[test]
fn circle_test_translate() {
    let mut circle = Circle::new(Vector2::new(0, 0), 5_000_000, None, None, None);

    circle.translate(Vector2::new(1_000_000, 1_000_000));

    assert_eq!(Vector2::new(1_000_000, 1_000_000), circle.center());
    assert_eq!(5_000_000, circle.radius());
}

#[test]
fn circle_test_scale() {
    let mut circle = Circle::new(Vector2::new(0, 0), 5_000_000, None, None, None);

    circle.scale(2_000_000);

    assert_eq!(Vector2::new(0, 0), circle.center());
    assert_eq!(10_000_000, circle.radius());
}

#[test]
fn circle_test_contains() {
    let circle = Circle::new(Vector2::new(0, 0), 1_000_000, None, None, None);

    let point_in = Vector2::new(100_000, 100_000);
    let point_on = Vector2::new(0, 1_000_000);
    let point_out = Vector2::new(1_000_000, 1_000_000);

    assert!(circle.contains(point_in));
    assert!(circle.contains(point_on));
    assert!(!circle.contains(point_out));
}

#[test]
fn test_circle_circumference_and_area() {
    let circle = Circle::new(Vector2::new(0, 0), 5_000_000, None, None, None);

    assert_eq!(31_415_920, circle.circumference());
    assert_eq!(78_539_800, circle.area());
    assert!(close(circle.circumference(), 10.0 * std::f64::consts::PI, 1e-4));
    assert!(close(circle.area(), 25.0 * std::f64::consts::PI, 1e-4));
}

#[test]
fn line2d_test_translate() {
    let mut line = Line::new(Vector2::new(0, 0), Vector2::new(1_000_000, 1_000_000), None, None, None);

    line.translate(Vector2::new(5_000_000, 5_000_000));

    assert_eq!(Vector2::new(5_000_000, 5_000_000), line.start());
    assert_eq!(Vector2::new(6_000_000, 6_000_000), line.end());
}

#[test]
fn line2d_test_rotate() {
    let mut line = Line::new(Vector2::new(0, 0), Vector2::new(1_000_000, 1_000_000), None, None, None);

    line.rotate(FP_QUARTER_PI);

    assert_eq!(FP_HALF_PI, line.angle());
    assert_eq!(Vector2::new(0, 0), line.start());
    assert_eq!(Vector2::new(0, 1_414_213), line.end());
    assert!(close(line.end().y(), 2f64.sqrt(), 1e-4));
}

#[test]
fn line2d_test_scale() {
    let mut line = Line::new(Vector2::new(0, 0), Vector2::new(1_000_000, 1_000_000), None, None, None);

    line.scale(3_000_000);

    assert!(close(line.len(), 18f64.sqrt(), 1e-4));
    assert_eq!(Vector2::new(0, 0), line.start());
    assert_eq!(Vector2::new(3_000_000, 3_000_000), line.end());
}

#[test]
fn line2d_test_contains() {
    let line = Line::new(Vector2::new(0, 0), Vector2::new(2_000_000, 2_000_000), None, None, None);

    let v_inside1 = Vector2::new(1_000_000, 1_000_000);
    let v_outside2 = Vector2::new(17_000_000, 20_000_000);

    assert!(line.contains(v_inside1));
    assert!(line.contains(v_inside1));
    assert!(!line.contains(v_outside2));
    assert!(!line.contains(v_outside2));
}

#[test]
fn test_line_scale_by_two() {
    let mut line = Line::new(Vector2::new(0, 0), Vector2::new(1_000_000, 1_000_000), None, None, None);

    line.scale(2_000_000);

    assert_eq!(Vector2::new(2_000_000, 2_000_000), line.end());
    assert_eq!(2_828_426, line.len());
    assert!(close(line.len(), 8f64.sqrt(), 1e-4));
}

#[test]
fn test_dimensions() {
    let rect = Rect2::new(Vector2::new(0, 0), Vector2::new(1_000_000, 1_000_000), None, None, None);

    assert_eq!((1_000_000, 1_000_000), rect.dimensions());
}

#[test]
fn test_make_square() {
    let sqr = Rect2::new_square(Vector2::new(0, 10_000_000), 10_000_000, None, None, None);

    assert_eq!(Vector2::new(0, 10_000_000), sqr.start());
    assert_eq!(Vector2::new(10_000_000, 0), sqr.end());
    assert_eq!((10_000_000, 10_000_000), sqr.dimensions());
}

#[test]
fn rect2d_test_translate() {
    let mut rect = Rect2::new(Vector2::new(0, 0), Vector2::new(1_000_000, 1_000_000), None, None, None);

    rect.translate(Vector2::new(2_000_000, 2_000_000));

    assert_eq!(Vector2::new(2_000_000, 2_000_000), rect.start());
    assert_eq!(Vector2::new(3_000_000, 3_000_000), rect.end());
}

#[test]
fn rect2d_test_rotate() {
    let mut rect = Rect2::new(Vector2::new(0, 0), Vector2::new(1_000_000, 1_000_000), None, None, None);

    rect.rotate(FP_QUARTER_PI);
    assert_eq!(FP_QUARTER_PI, rect.angle());
    assert_eq!(Vector2::new(0, 0), rect.start());
    assert_eq!(Vector2::new(0, 1_414_213), rect.end());
}

#[test]
fn rect2d_test_scale() {
    let mut rect = Rect2::new(Vector2::new(0, 0), Vector2::new(1_000_000, 1_000_000), None, None, None);

    rect.scale(2_000_000);

    assert_eq!(Vector2::new(0, 0), rect.start());
    assert_eq!(Vector2::new(2_000_000, 2_000_000), rect.end());
    assert_eq!((2_000_000, 2_000_000), rect.dimensions());
}

#[test]
fn test_rotated_dimensions_within_tolerance() {
    let mut rect = Rect2::new(Vector2::new(0, 0), Vector2::new(1_000_000, 1_000_000), None, None, None);

    rect.rotate(FP_QUARTER_PI);

    let dims = rect.dimensions();
    assert!(close(dims.0, 1.0, 1e-3));
    assert!(close(dims.1, 1.0, 1e-3));
}

#[test]
fn rect2d_test_contains() {
    let rect = Rect2::new(Vector2::new(0, 0), Vector2::new(1_000_000, 1_000_000), None, None, None);

    let v_inside = [
        Vector2::new(500_000, 500_000),
        Vector2::new(750_000, 0),
        Vector2::new(1_000_000, 0),
        Vector2::new(1_000_000, 1_000_000),
    ];
    let v_outside = [
        Vector2::new(2_000_000, 2_000_000),
        Vector2::new(1_000_000, 1_100_000),
        Vector2::new(0, 5_000_000),
        Vector2::new(12_000_000, 16_400_000),
    ];

    assert!(rect.contains(v_inside[0]));
    assert!(rect.contains(v_inside[1]));
    assert!(rect.contains(v_inside[2]));
    assert!(rect.contains(v_inside[3]));

    assert!(!rect.contains(v_outside[0]));
    assert!(!rect.contains(v_outside[1]));
    assert!(!rect.contains(v_outside[2]));
    assert!(!rect.contains(v_outside[3]));
}

#[test]
fn text_test_translate() {
    let mut text = Text::new("test".to_string(), Vector2::new(0, 0), None, None);

    text.translate(Vector2::new(1_000_000, 1_000_000));

    assert_eq!(Vector2::new(1_000_000, 1_000_000), text.pos());
    assert_eq!("test", text.text());
}

#[test]
fn test_text_svg_fragment() {
    let text = Text::new("hello".to_string(), Vector2::new(1_000_000, 2_000_000), None, None);

    assert_eq!("<text x=\"1\" y=\"2\">hello</text>", text.to_svg_tag());
}
